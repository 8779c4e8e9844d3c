//! Text prompts: a title and a content, both required.
use vstd::prelude::*;

use crate::errors::ApiError;
use crate::dispatch::Database;
use crate::store::{
    creates, deletes, destroys, get_outcome, is_live, lists_active, restores, revise_outcome,
    updates, Duplicate, Record, Rows, Table, Timestamp,
};

verus! {

/// The fields of a prompt, as given to a create.
#[derive(Debug)]
pub struct PromptInput {
    pub title: String,
    pub content: String,
}

/// A stored prompt.
pub type Prompt = Record<PromptInput>;

/// The table that holds the prompts.
pub type PromptStore = Table<PromptInput>;

/// A partial change of a prompt: `None` leaves the field as it is.
#[derive(Debug)]
pub struct UpdatePrompt {
    pub title: Option<String>,
    pub content: Option<String>,
}

impl Duplicate for PromptInput {
    fn duplicate(&self) -> (r: Self) {
        PromptInput { title: self.title.clone(), content: self.content.clone() }
    }
}

impl PromptInput {
    /// Both fields are present.
    pub open spec fn is_valid(&self) -> bool {
        self.title@.len() > 0 && self.content@.len() > 0
    }

    pub fn validate(&self) -> (r: bool)
        ensures
            r == self.is_valid(),
    {
        !self.title.as_str().is_empty() && !self.content.as_str().is_empty()
    }

    /// Stores a new prompt made of `input`, created at `now`.
    pub fn create(store: &mut PromptStore, input: PromptInput, now: Timestamp) -> (r: Result<
        Prompt,
        ApiError,
    >)
        requires
            old(store).wf(),
        ensures
            final(store).wf(),
            creates(
                *old(store),
                if input.is_valid() {
                    None
                } else {
                    Some(ApiError::Validation)
                },
                input,
                now,
                r,
                *final(store),
            ),
    {
        if !input.validate() {
            return Err(ApiError::Validation);
        }
        store.insert(input, now)
    }
}

impl UpdatePrompt {
    /// `cur` with each field that this change provides replaced.
    pub open spec fn merged(&self, cur: PromptInput) -> PromptInput {
        PromptInput {
            title: match self.title {
                Some(t) => t,
                None => cur.title,
            },
            content: match self.content {
                Some(c) => c,
                None => cur.content,
            },
        }
    }

    pub fn merge(&self, cur: &PromptInput) -> (r: PromptInput)
        ensures
            r == self.merged(*cur),
    {
        let title = match &self.title {
            Some(t) => t.clone(),
            None => cur.title.clone(),
        };
        let content = match &self.content {
            Some(c) => c.clone(),
            None => cur.content.clone(),
        };
        PromptInput { title, content }
    }

    /// Applies `input` to the active prompt `id` at `now`.
    pub fn update(store: &mut PromptStore, id: u64, input: UpdatePrompt, now: Timestamp) -> (r:
        Result<Prompt, ApiError>)
        requires
            old(store).wf(),
        ensures
            final(store).wf(),
            updates(*old(store), id, None, input.merged(old(store)@[id].data), now, r, *final(store)),
    {
        let cur = store.get(id)?;
        let data = input.merge(&cur.data);
        store.revise(id, data, now)
    }
}

/// A change that provides only the content of an active prompt replaces the
/// content, keeps the title, identity and creation time, and stamps the
/// prompt with the time of the change.
pub proof fn law_partial_merge(m: Rows<PromptInput>, id: u64, content: String, now: Timestamp)
    requires
        is_live(m, id),
    ensures
        ({
            let change = UpdatePrompt { title: None, content: Some(content) };
            let after = revise_outcome(m, id, change.merged(m[id].data), now);
            &&& after is Ok
            &&& after->Ok_0.data.title == m[id].data.title
            &&& after->Ok_0.data.content == content
            &&& after->Ok_0.updated_at == now
            &&& after->Ok_0.id == m[id].id
            &&& after->Ok_0.created_at == m[id].created_at
            &&& after->Ok_0.deleted_at is None
        }),
{
    let change = UpdatePrompt { title: None, content: Some(content) };
    let merged = change.merged(m[id].data);
    assert(merged.title == m[id].data.title && merged.content == content);
    assert(revise_outcome(m, id, merged, now) == Ok::<Prompt, ApiError>(m[id].revised(merged, now)));
}

/// The read entry points for prompts.
pub struct QueryRoot;

impl QueryRoot {
    /// The active prompts.
    pub fn list_prompts(&self, db: &Database) -> (r: Vec<Prompt>)
        requires
            db.wf(),
        ensures
            lists_active(db.prompts@, r@),
    {
        db.prompts.list()
    }

    /// The active prompt `id`.
    pub fn get_prompt(&self, db: &Database, id: u64) -> (r: Result<Prompt, ApiError>)
        requires
            db.wf(),
        ensures
            r == get_outcome(db.prompts@, id),
    {
        db.prompts.get(id)
    }
}

/// The write entry points for prompts.
pub struct MutationRoot;

impl MutationRoot {
    pub fn create_prompt(&self, db: &mut Database, data: PromptInput, now: Timestamp) -> (r: Result<
        Prompt,
        ApiError,
    >)
        requires
            old(db).wf(),
        ensures
            final(db).wf(),
            final(db).users == old(db).users,
            final(db).haikus == old(db).haikus,
            creates(
                old(db).prompts,
                if data.is_valid() {
                    None
                } else {
                    Some(ApiError::Validation)
                },
                data,
                now,
                r,
                final(db).prompts,
            ),
    {
        PromptInput::create(&mut db.prompts, data, now)
    }

    pub fn update_prompt(&self, db: &mut Database, id: u64, data: UpdatePrompt, now: Timestamp) -> (r:
        Result<Prompt, ApiError>)
        requires
            old(db).wf(),
        ensures
            final(db).wf(),
            final(db).users == old(db).users,
            final(db).haikus == old(db).haikus,
            updates(
                old(db).prompts,
                id,
                None,
                data.merged(old(db).prompts@[id].data),
                now,
                r,
                final(db).prompts,
            ),
    {
        UpdatePrompt::update(&mut db.prompts, id, data, now)
    }

    pub fn delete_prompt(&self, db: &mut Database, id: u64, now: Timestamp) -> (r: Result<Prompt, ApiError>)
        requires
            old(db).wf(),
        ensures
            final(db).wf(),
            final(db).users == old(db).users,
            final(db).haikus == old(db).haikus,
            deletes(old(db).prompts, id, now, r, final(db).prompts),
    {
        db.prompts.delete(id, now)
    }

    pub fn restore_prompt(&self, db: &mut Database, id: u64, now: Timestamp) -> (r: Result<Prompt, ApiError>)
        requires
            old(db).wf(),
        ensures
            final(db).wf(),
            final(db).users == old(db).users,
            final(db).haikus == old(db).haikus,
            restores(old(db).prompts, id, now, r, final(db).prompts),
    {
        db.prompts.restore(id, now)
    }

    /// Hard-deletes prompt `id`; `true` once it is gone.
    pub fn destroy_prompt(&self, db: &mut Database, id: u64) -> (r: Result<bool, ApiError>)
        requires
            old(db).wf(),
        ensures
            final(db).wf(),
            final(db).users == old(db).users,
            final(db).haikus == old(db).haikus,
            destroys(
                old(db).prompts,
                id,
                match r {
                    Ok(_) => Ok(()),
                    Err(e) => Err(e),
                },
                final(db).prompts,
            ),
            r is Ok ==> r == Ok::<bool, ApiError>(true),
    {
        match db.prompts.destroy(id) {
            Ok(()) => Ok(true),
            Err(e) => Err(e),
        }
    }
}

} // verus!
