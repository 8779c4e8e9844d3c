//! The dispatcher: resolves a named call against the registry, checks the
//! shape of its arguments, runs it on the database and reports the result
//! or the error. Calls of one batch run one after the other, each on its own.
use vstd::prelude::*;

use crate::errors::ApiError;
use crate::haikus::{Haiku, HaikuStore, InputHaiku, UpdateHaiku};
use crate::prompts::{Prompt, PromptInput, PromptStore, UpdatePrompt};
use crate::registry::{route_of, Kind, Op, Registry};
use crate::store::{
    creates, deletes, destroys, get_outcome, lists_active, restores, updates, Table, Timestamp,
};
use crate::users::{create_refusal, update_refusal, UpdateUser, User, UserInput, UserStore};

verus! {

/// The three tables, passed explicitly to every operation.
pub struct Database {
    pub users: UserStore,
    pub prompts: PromptStore,
    pub haikus: HaikuStore,
}

impl Database {
    pub open spec fn wf(&self) -> bool {
        self.users.wf() && self.prompts.wf() && self.haikus.wf()
    }

    /// Three empty tables.
    pub fn new() -> (r: Database)
        ensures
            r.wf(),
            r.users@.is_empty(),
            r.prompts@.is_empty(),
            r.haikus@.is_empty(),
    {
        let r = Database { users: Table::new(), prompts: Table::new(), haikus: Table::new() };
        assert(r.users@.dom() =~= Set::empty());
        assert(r.prompts@.dom() =~= Set::empty());
        assert(r.haikus@.dom() =~= Set::empty());
        r
    }

    /// The two databases hold the same records and would assign the same
    /// identities next.
    pub open spec fn same_state(&self, other: &Database) -> bool {
        &&& self.users@ == other.users@ && self.users.next_id() == other.users.next_id()
        &&& self.prompts@ == other.prompts@ && self.prompts.next_id() == other.prompts.next_id()
        &&& self.haikus@ == other.haikus@ && self.haikus.next_id() == other.haikus.next_id()
    }
}

/// The fields of a new entity, of one of the kinds.
#[derive(Debug)]
pub enum Payload {
    Account(UserInput),
    Prompt(PromptInput),
    Poem(InputHaiku),
}

/// A partial change of an entity, of one of the kinds.
#[derive(Debug)]
pub enum Change {
    Account(UpdateUser),
    Prompt(UpdatePrompt),
    Poem(UpdateHaiku),
}

/// The typed arguments of a call.
#[derive(Debug)]
pub enum Args {
    Nothing,
    Id(u64),
    Create(Payload),
    Update(u64, Change),
}

/// One named operation with its arguments.
#[derive(Debug)]
pub struct Call {
    pub operation: String,
    pub args: Args,
}

/// What a successful call hands back.
#[derive(Debug)]
pub enum Output {
    Users(Vec<User>),
    User(User),
    Prompts(Vec<Prompt>),
    Prompt(Prompt),
    Haikus(Vec<Haiku>),
    Haiku(Haiku),
    Destroyed,
}

/// The result of a call that hands back one account, if it has that shape.
pub open spec fn as_user(r: Result<Output, ApiError>) -> Option<Result<User, ApiError>> {
    match r {
        Ok(Output::User(u)) => Some(Ok(u)),
        Err(e) => Some(Err(e)),
        _ => None,
    }
}

/// The result of a call that hands back one prompt, if it has that shape.
pub open spec fn as_prompt(r: Result<Output, ApiError>) -> Option<Result<Prompt, ApiError>> {
    match r {
        Ok(Output::Prompt(p)) => Some(Ok(p)),
        Err(e) => Some(Err(e)),
        _ => None,
    }
}

/// The result of a call that hands back one haiku, if it has that shape.
pub open spec fn as_haiku(r: Result<Output, ApiError>) -> Option<Result<Haiku, ApiError>> {
    match r {
        Ok(Output::Haiku(h)) => Some(Ok(h)),
        Err(e) => Some(Err(e)),
        _ => None,
    }
}

/// The result of a hard delete, if it has that shape.
pub open spec fn as_destroyed(r: Result<Output, ApiError>) -> Option<Result<(), ApiError>> {
    match r {
        Ok(Output::Destroyed) => Some(Ok(())),
        Err(e) => Some(Err(e)),
        _ => None,
    }
}

/// A call whose arguments do not fit the operation: refused, nothing touched.
pub open spec fn refused<T>(before: Table<T>, r: Result<Output, ApiError>, after: Table<T>) -> bool {
    r == Err::<Output, ApiError>(ApiError::Validation) && after == before
}

/// What `op` with `args` does on the accounts.
pub open spec fn on_accounts(
    before: UserStore,
    op: Op,
    args: Args,
    now: Timestamp,
    r: Result<Output, ApiError>,
    after: UserStore,
) -> bool {
    match (op, args) {
        (Op::List, Args::Nothing) => after == before && (r matches Ok(Output::Users(v))
            && lists_active(before@, v@)),
        (Op::Get, Args::Id(id)) => after == before && as_user(r) == Some(get_outcome(before@, id)),
        (Op::Create, Args::Create(Payload::Account(d))) => as_user(r) matches Some(x) && creates(
            before,
            create_refusal(&before, &d),
            d,
            now,
            x,
            after,
        ),
        (Op::Update, Args::Update(id, Change::Account(c))) => {
            let merged = c.merged(before@[id].data);
            as_user(r) matches Some(x) && updates(
                before,
                id,
                update_refusal(&before, id, merged),
                merged,
                now,
                x,
                after,
            )
        },
        (Op::Delete, Args::Id(id)) => as_user(r) matches Some(x) && deletes(before, id, now, x, after),
        (Op::Restore, Args::Id(id)) => as_user(r) matches Some(x) && restores(before, id, now, x, after),
        (Op::Destroy, Args::Id(id)) => as_destroyed(r) matches Some(x) && destroys(before, id, x, after),
        _ => refused(before, r, after),
    }
}

/// What `op` with `args` does on the prompts.
pub open spec fn on_prompts(
    before: PromptStore,
    op: Op,
    args: Args,
    now: Timestamp,
    r: Result<Output, ApiError>,
    after: PromptStore,
) -> bool {
    match (op, args) {
        (Op::List, Args::Nothing) => after == before && (r matches Ok(Output::Prompts(v))
            && lists_active(before@, v@)),
        (Op::Get, Args::Id(id)) => after == before && as_prompt(r) == Some(get_outcome(before@, id)),
        (Op::Create, Args::Create(Payload::Prompt(d))) => as_prompt(r) matches Some(x) && creates(
            before,
            if d.is_valid() {
                None
            } else {
                Some(ApiError::Validation)
            },
            d,
            now,
            x,
            after,
        ),
        (Op::Update, Args::Update(id, Change::Prompt(c))) => as_prompt(r) matches Some(x) && updates(
            before,
            id,
            None,
            c.merged(before@[id].data),
            now,
            x,
            after,
        ),
        (Op::Delete, Args::Id(id)) => as_prompt(r) matches Some(x) && deletes(before, id, now, x, after),
        (Op::Restore, Args::Id(id)) => as_prompt(r) matches Some(x) && restores(before, id, now, x, after),
        (Op::Destroy, Args::Id(id)) => as_destroyed(r) matches Some(x) && destroys(before, id, x, after),
        _ => refused(before, r, after),
    }
}

/// What `op` with `args` does on the haikus.
pub open spec fn on_haikus(
    before: HaikuStore,
    op: Op,
    args: Args,
    now: Timestamp,
    r: Result<Output, ApiError>,
    after: HaikuStore,
) -> bool {
    match (op, args) {
        (Op::List, Args::Nothing) => after == before && (r matches Ok(Output::Haikus(v))
            && lists_active(before@, v@)),
        (Op::Get, Args::Id(id)) => after == before && as_haiku(r) == Some(get_outcome(before@, id)),
        (Op::Create, Args::Create(Payload::Poem(d))) => as_haiku(r) matches Some(x) && creates(
            before,
            if d.is_valid() {
                None
            } else {
                Some(ApiError::Validation)
            },
            d,
            now,
            x,
            after,
        ),
        (Op::Update, Args::Update(id, Change::Poem(c))) => as_haiku(r) matches Some(x) && updates(
            before,
            id,
            None,
            c.merged(before@[id].data),
            now,
            x,
            after,
        ),
        (Op::Delete, Args::Id(id)) => as_haiku(r) matches Some(x) && deletes(before, id, now, x, after),
        (Op::Restore, Args::Id(id)) => as_haiku(r) matches Some(x) && restores(before, id, now, x, after),
        (Op::Destroy, Args::Id(id)) => as_destroyed(r) matches Some(x) && destroys(before, id, x, after),
        _ => refused(before, r, after),
    }
}

/// What `call` does on the database: an unknown name fails with `Routing`
/// and touches nothing; otherwise the addressed operation runs on its
/// kind's table and the other tables stay as they are.
pub open spec fn dispatched(
    before: Database,
    call: Call,
    now: Timestamp,
    r: Result<Output, ApiError>,
    after: Database,
) -> bool {
    match route_of(call.operation@) {
        None => r == Err::<Output, ApiError>(ApiError::Routing) && after == before,
        Some((kind, op)) => match kind {
            Kind::Account => after.prompts == before.prompts && after.haikus == before.haikus
                && on_accounts(before.users, op, call.args, now, r, after.users),
            Kind::Prompt => after.users == before.users && after.haikus == before.haikus
                && on_prompts(before.prompts, op, call.args, now, r, after.prompts),
            Kind::Poem => after.users == before.users && after.prompts == before.prompts
                && on_haikus(before.haikus, op, call.args, now, r, after.haikus),
        },
    }
}

fn run_on_accounts(store: &mut UserStore, op: Op, args: Args, now: Timestamp) -> (r: Result<
    Output,
    ApiError,
>)
    requires
        old(store).wf(),
    ensures
        final(store).wf(),
        on_accounts(*old(store), op, args, now, r, *final(store)),
{
    match (op, args) {
        (Op::List, Args::Nothing) => Ok(Output::Users(store.list())),
        (Op::Get, Args::Id(id)) => match store.get(id) {
            Ok(u) => Ok(Output::User(u)),
            Err(e) => Err(e),
        },
        (Op::Create, Args::Create(Payload::Account(d))) => match UserInput::create(store, d, now) {
            Ok(u) => Ok(Output::User(u)),
            Err(e) => Err(e),
        },
        (Op::Update, Args::Update(id, Change::Account(c))) => match UpdateUser::update(
            store,
            id,
            c,
            now,
        ) {
            Ok(u) => Ok(Output::User(u)),
            Err(e) => Err(e),
        },
        (Op::Delete, Args::Id(id)) => match store.delete(id, now) {
            Ok(u) => Ok(Output::User(u)),
            Err(e) => Err(e),
        },
        (Op::Restore, Args::Id(id)) => match store.restore(id, now) {
            Ok(u) => Ok(Output::User(u)),
            Err(e) => Err(e),
        },
        (Op::Destroy, Args::Id(id)) => match store.destroy(id) {
            Ok(()) => Ok(Output::Destroyed),
            Err(e) => Err(e),
        },
        _ => Err(ApiError::Validation),
    }
}

fn run_on_prompts(store: &mut PromptStore, op: Op, args: Args, now: Timestamp) -> (r: Result<
    Output,
    ApiError,
>)
    requires
        old(store).wf(),
    ensures
        final(store).wf(),
        on_prompts(*old(store), op, args, now, r, *final(store)),
{
    match (op, args) {
        (Op::List, Args::Nothing) => Ok(Output::Prompts(store.list())),
        (Op::Get, Args::Id(id)) => match store.get(id) {
            Ok(p) => Ok(Output::Prompt(p)),
            Err(e) => Err(e),
        },
        (Op::Create, Args::Create(Payload::Prompt(d))) => match PromptInput::create(store, d, now) {
            Ok(p) => Ok(Output::Prompt(p)),
            Err(e) => Err(e),
        },
        (Op::Update, Args::Update(id, Change::Prompt(c))) => match UpdatePrompt::update(
            store,
            id,
            c,
            now,
        ) {
            Ok(p) => Ok(Output::Prompt(p)),
            Err(e) => Err(e),
        },
        (Op::Delete, Args::Id(id)) => match store.delete(id, now) {
            Ok(p) => Ok(Output::Prompt(p)),
            Err(e) => Err(e),
        },
        (Op::Restore, Args::Id(id)) => match store.restore(id, now) {
            Ok(p) => Ok(Output::Prompt(p)),
            Err(e) => Err(e),
        },
        (Op::Destroy, Args::Id(id)) => match store.destroy(id) {
            Ok(()) => Ok(Output::Destroyed),
            Err(e) => Err(e),
        },
        _ => Err(ApiError::Validation),
    }
}

fn run_on_haikus(store: &mut HaikuStore, op: Op, args: Args, now: Timestamp) -> (r: Result<
    Output,
    ApiError,
>)
    requires
        old(store).wf(),
    ensures
        final(store).wf(),
        on_haikus(*old(store), op, args, now, r, *final(store)),
{
    match (op, args) {
        (Op::List, Args::Nothing) => Ok(Output::Haikus(store.list())),
        (Op::Get, Args::Id(id)) => match store.get(id) {
            Ok(h) => Ok(Output::Haiku(h)),
            Err(e) => Err(e),
        },
        (Op::Create, Args::Create(Payload::Poem(d))) => match InputHaiku::create(store, d, now) {
            Ok(h) => Ok(Output::Haiku(h)),
            Err(e) => Err(e),
        },
        (Op::Update, Args::Update(id, Change::Poem(c))) => match UpdateHaiku::update(
            store,
            id,
            c,
            now,
        ) {
            Ok(h) => Ok(Output::Haiku(h)),
            Err(e) => Err(e),
        },
        (Op::Delete, Args::Id(id)) => match store.delete(id, now) {
            Ok(h) => Ok(Output::Haiku(h)),
            Err(e) => Err(e),
        },
        (Op::Restore, Args::Id(id)) => match store.restore(id, now) {
            Ok(h) => Ok(Output::Haiku(h)),
            Err(e) => Err(e),
        },
        (Op::Destroy, Args::Id(id)) => match store.destroy(id) {
            Ok(()) => Ok(Output::Destroyed),
            Err(e) => Err(e),
        },
        _ => Err(ApiError::Validation),
    }
}

/// Runs one call at `now`.
pub fn dispatch(registry: &Registry, db: &mut Database, call: Call, now: Timestamp) -> (r: Result<
    Output,
    ApiError,
>)
    requires
        registry.wf(),
        old(db).wf(),
    ensures
        final(db).wf(),
        dispatched(*old(db), call, now, r, *final(db)),
{
    let (kind, op) = match registry.lookup(&call.operation) {
        Ok(e) => e,
        Err(e) => return Err(e),
    };
    match kind {
        Kind::Account => run_on_accounts(&mut db.users, op, call.args, now),
        Kind::Prompt => run_on_prompts(&mut db.prompts, op, call.args, now),
        Kind::Poem => run_on_haikus(&mut db.haikus, op, call.args, now),
    }
}

/// The calls of a batch ran in order, each on the state that the one before
/// it left, whether that one succeeded or failed: `states` are the states
/// between the calls.
pub open spec fn batch_ran(
    states: Seq<Database>,
    calls: Seq<Call>,
    now: Timestamp,
    rs: Seq<Result<Output, ApiError>>,
) -> bool {
    &&& states.len() == calls.len() + 1
    &&& rs.len() == calls.len()
    &&& forall|i: int|
        0 <= i < calls.len() ==> #[trigger] dispatched(states[i], calls[i], now, rs[i], states[i + 1])
}

/// Runs the calls of one batch at `now`, in order; each reports its own
/// result, and a failing call does not stop the ones after it.
pub fn dispatch_batch(registry: &Registry, db: &mut Database, calls: Vec<Call>, now: Timestamp) -> (r:
    Vec<Result<Output, ApiError>>)
    requires
        registry.wf(),
        old(db).wf(),
    ensures
        final(db).wf(),
        exists|states: Seq<Database>|
            {
                &&& batch_ran(states, calls@, now, r@)
                &&& states[0] == *old(db)
                &&& states[calls@.len() as int] == *final(db)
            },
{
    let ghost all = calls@;
    let ghost mut states: Seq<Database> = seq![*db];
    let mut calls = calls;
    let mut out: Vec<Result<Output, ApiError>> = Vec::new();
    while calls.len() > 0
        invariant
            registry.wf(),
            db.wf(),
            out@.len() + calls@.len() == all.len(),
            calls@ == all.subrange(out@.len() as int, all.len() as int),
            batch_ran(states, all.subrange(0, out@.len() as int), now, out@),
            states[0] == *old(db),
            states.last() == *db,
        decreases calls@.len(),
    {
        let ghost k = out@.len() as int;
        let call = calls.remove(0);
        let ghost before = *db;
        assert(call == all[k]);
        let res = dispatch(registry, db, call, now);
        out.push(res);
        proof {
            let prev = states;
            states = states.push(*db);
            let done = all.subrange(0, k + 1);
            assert forall|i: int| 0 <= i < done.len() implies #[trigger] dispatched(
                states[i],
                done[i],
                now,
                out@[i],
                states[i + 1],
            ) by {
                if i < k {
                    assert(all.subrange(0, k)[i] == done[i]);
                    assert(dispatched(prev[i], all.subrange(0, k)[i], now, out@[i], prev[i + 1]));
                } else {
                    assert(done[i] == all[k]);
                }
            }
            assert(calls@ =~= all.subrange(k + 1, all.len() as int));
        }
    }
    assert(all.subrange(0, all.len() as int) =~= all);
    out
}

/// A call that fails leaves the database as it was, so the calls after it
/// in a batch see the state they would have seen without it.
pub proof fn law_failed_call_changes_nothing(
    before: Database,
    call: Call,
    now: Timestamp,
    e: ApiError,
    after: Database,
)
    requires
        before.wf(),
        dispatched(before, call, now, Err(e), after),
    ensures
        after.same_state(&before),
{
    match route_of(call.operation@) {
        None => {},
        Some((kind, op)) => match (kind, call.args) {
            (Kind::Account, Args::Id(id)) => {
                if op == Op::Destroy {
                    assert(!before.users@.contains_key(id));
                    assert(before.users@.remove(id) =~= before.users@);
                }
            },
            (Kind::Prompt, Args::Id(id)) => {
                if op == Op::Destroy {
                    assert(!before.prompts@.contains_key(id));
                    assert(before.prompts@.remove(id) =~= before.prompts@);
                }
            },
            (Kind::Poem, Args::Id(id)) => {
                if op == Op::Destroy {
                    assert(!before.haikus@.contains_key(id));
                    assert(before.haikus@.remove(id) =~= before.haikus@);
                }
            },
            _ => {},
        },
    }
}

} // verus!
