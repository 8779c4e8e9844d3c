//! Accounts: names, an email address that no two accounts share, and a
//! password kept as given.
use vstd::prelude::*;

use crate::errors::ApiError;
use crate::dispatch::Database;
use crate::store::{
    creates, deletes, destroys, get_outcome, lists_active, restores, updates, Duplicate, Record,
    Table, Timestamp,
};

verus! {

/// The fields of an account, as given to a create.
#[derive(Debug)]
pub struct UserInput {
    pub first_name: String,
    pub last_name: String,
    pub email: String,
    pub password: String,
}

/// A stored account.
pub type User = Record<UserInput>;

/// The table that holds the accounts.
pub type UserStore = Table<UserInput>;

/// A partial change of an account: `None` leaves the field as it is.
#[derive(Debug)]
pub struct UpdateUser {
    pub first_name: Option<String>,
    pub last_name: Option<String>,
    pub email: Option<String>,
    pub password: Option<String>,
}

impl Duplicate for UserInput {
    fn duplicate(&self) -> (r: Self) {
        UserInput {
            first_name: self.first_name.clone(),
            last_name: self.last_name.clone(),
            email: self.email.clone(),
            password: self.password.clone(),
        }
    }
}

/// Some account other than `except`, active or soft-deleted, has this email.
pub open spec fn email_taken(store: &UserStore, email: Seq<char>, except: Option<u64>) -> bool {
    exists|q: u64|
        #[trigger] store@.contains_key(q) && Some(q) != except && store@[q].data.email@ == email
}

/// Tells whether `email` belongs to an account other than `except`.
pub fn email_in_use(store: &UserStore, email: &String, except: Option<u64>) -> (r: bool)
    requires
        store.wf(),
    ensures
        r == email_taken(store, email@, except),
{
    let rows = store.all();
    let mut i: usize = 0;
    while i < rows.len()
        invariant
            i <= rows@.len(),
            forall|k: int|
                0 <= k < rows@.len() ==> store@.contains_key(#[trigger] rows@[k].id) && rows@[k]
                    == store@[rows@[k].id],
            forall|k: int| 0 <= k < i ==> Some(rows@[k].id) == except || rows@[k].data.email@ != email@,
        decreases rows@.len() - i,
    {
        let other = match except {
            Some(x) => rows[i].id != x,
            None => true,
        };
        if other && rows[i].data.email == *email {
            assert(store@.contains_key(rows@[i as int].id) && store@[rows@[i as int].id] == rows@[i as int]);
            return true;
        }
        i += 1;
    }
    assert forall|q: u64| #[trigger] store@.contains_key(q) && Some(q) != except implies store@[q].data.email@
        != email@ by {
        let k = choose|k: int| 0 <= k < rows@.len() && rows@[k].id == q;
    }
    false
}

/// Why a create of `data` is refused, if it is: a missing field, or an
/// email that another account has.
pub open spec fn create_refusal(store: &UserStore, data: &UserInput) -> Option<ApiError> {
    if !data.is_valid() {
        Some(ApiError::Validation)
    } else if email_taken(store, data.email@, None) {
        Some(ApiError::Conflict)
    } else {
        None
    }
}

/// Why a change of account `id` to `merged` is refused, if it is: an email
/// that another account has.
pub open spec fn update_refusal(store: &UserStore, id: u64, merged: UserInput) -> Option<ApiError> {
    if email_taken(store, merged.email@, Some(id)) {
        Some(ApiError::Conflict)
    } else {
        None
    }
}

impl UserInput {
    /// Every field is present.
    pub open spec fn is_valid(&self) -> bool {
        &&& self.first_name@.len() > 0
        &&& self.last_name@.len() > 0
        &&& self.email@.len() > 0
        &&& self.password@.len() > 0
    }

    pub fn validate(&self) -> (r: bool)
        ensures
            r == self.is_valid(),
    {
        !self.first_name.as_str().is_empty() && !self.last_name.as_str().is_empty()
            && !self.email.as_str().is_empty() && !self.password.as_str().is_empty()
    }

    /// Stores a new account made of `data`, created at `now`. Fails with
    /// `Conflict` when another account already has the email.
    pub fn create(store: &mut UserStore, data: UserInput, now: Timestamp) -> (r: Result<
        User,
        ApiError,
    >)
        requires
            old(store).wf(),
        ensures
            final(store).wf(),
            creates(*old(store), create_refusal(old(store), &data), data, now, r, *final(store)),
    {
        if !data.validate() {
            return Err(ApiError::Validation);
        }
        if email_in_use(store, &data.email, None) {
            return Err(ApiError::Conflict);
        }
        store.insert(data, now)
    }
}

impl UpdateUser {
    /// `cur` with each field that this change provides replaced.
    pub open spec fn merged(&self, cur: UserInput) -> UserInput {
        UserInput {
            first_name: match self.first_name {
                Some(v) => v,
                None => cur.first_name,
            },
            last_name: match self.last_name {
                Some(v) => v,
                None => cur.last_name,
            },
            email: match self.email {
                Some(v) => v,
                None => cur.email,
            },
            password: match self.password {
                Some(v) => v,
                None => cur.password,
            },
        }
    }

    pub fn merge(&self, cur: &UserInput) -> (r: UserInput)
        ensures
            r == self.merged(*cur),
    {
        let first_name = match &self.first_name {
            Some(v) => v.clone(),
            None => cur.first_name.clone(),
        };
        let last_name = match &self.last_name {
            Some(v) => v.clone(),
            None => cur.last_name.clone(),
        };
        let email = match &self.email {
            Some(v) => v.clone(),
            None => cur.email.clone(),
        };
        let password = match &self.password {
            Some(v) => v.clone(),
            None => cur.password.clone(),
        };
        UserInput { first_name, last_name, email, password }
    }

    /// Applies `data` to the active account `id` at `now`. Fails with
    /// `Conflict` when the new email belongs to another account.
    pub fn update(store: &mut UserStore, id: u64, data: UpdateUser, now: Timestamp) -> (r: Result<
        User,
        ApiError,
    >)
        requires
            old(store).wf(),
        ensures
            final(store).wf(),
            updates(
                *old(store),
                id,
                update_refusal(old(store), id, data.merged(old(store)@[id].data)),
                data.merged(old(store)@[id].data),
                now,
                r,
                *final(store),
            ),
    {
        let cur = store.get(id)?;
        let merged = data.merge(&cur.data);
        if email_in_use(store, &merged.email, Some(id)) {
            return Err(ApiError::Conflict);
        }
        store.revise(id, merged, now)
    }
}

/// The read entry points for accounts.
pub struct QueryRoot;

impl QueryRoot {
    /// The active accounts.
    pub fn list_users(&self, db: &Database) -> (r: Vec<User>)
        requires
            db.wf(),
        ensures
            lists_active(db.users@, r@),
    {
        db.users.list()
    }

    /// The active account `id`.
    pub fn get_user(&self, db: &Database, id: u64) -> (r: Result<User, ApiError>)
        requires
            db.wf(),
        ensures
            r == get_outcome(db.users@, id),
    {
        db.users.get(id)
    }
}

/// The write entry points for accounts.
pub struct MutationRoot;

impl MutationRoot {
    pub fn create_user(&self, db: &mut Database, data: UserInput, now: Timestamp) -> (r: Result<
        User,
        ApiError,
    >)
        requires
            old(db).wf(),
        ensures
            final(db).wf(),
            final(db).prompts == old(db).prompts,
            final(db).haikus == old(db).haikus,
            creates(
                old(db).users,
                create_refusal(&old(db).users, &data),
                data,
                now,
                r,
                final(db).users,
            ),
    {
        UserInput::create(&mut db.users, data, now)
    }

    pub fn update_user(&self, db: &mut Database, id: u64, data: UpdateUser, now: Timestamp) -> (r:
        Result<User, ApiError>)
        requires
            old(db).wf(),
        ensures
            final(db).wf(),
            final(db).prompts == old(db).prompts,
            final(db).haikus == old(db).haikus,
            updates(
                old(db).users,
                id,
                update_refusal(&old(db).users, id, data.merged(old(db).users@[id].data)),
                data.merged(old(db).users@[id].data),
                now,
                r,
                final(db).users,
            ),
    {
        UpdateUser::update(&mut db.users, id, data, now)
    }

    pub fn delete_user(&self, db: &mut Database, id: u64, now: Timestamp) -> (r: Result<User, ApiError>)
        requires
            old(db).wf(),
        ensures
            final(db).wf(),
            final(db).prompts == old(db).prompts,
            final(db).haikus == old(db).haikus,
            deletes(old(db).users, id, now, r, final(db).users),
    {
        db.users.delete(id, now)
    }

    pub fn restore_user(&self, db: &mut Database, id: u64, now: Timestamp) -> (r: Result<User, ApiError>)
        requires
            old(db).wf(),
        ensures
            final(db).wf(),
            final(db).prompts == old(db).prompts,
            final(db).haikus == old(db).haikus,
            restores(old(db).users, id, now, r, final(db).users),
    {
        db.users.restore(id, now)
    }

    /// Hard-deletes account `id`; `true` once it is gone.
    pub fn destroy_user(&self, db: &mut Database, id: u64) -> (r: Result<bool, ApiError>)
        requires
            old(db).wf(),
        ensures
            final(db).wf(),
            final(db).prompts == old(db).prompts,
            final(db).haikus == old(db).haikus,
            destroys(
                old(db).users,
                id,
                match r {
                    Ok(_) => Ok(()),
                    Err(e) => Err(e),
                },
                final(db).users,
            ),
            r is Ok ==> r == Ok::<bool, ApiError>(true),
    {
        match db.users.destroy(id) {
            Ok(()) => Ok(true),
            Err(e) => Err(e),
        }
    }
}

} // verus!
