//! Generated haikus: a text and whether it is meant to be funny.
use vstd::prelude::*;

use crate::errors::ApiError;
use crate::store::{creates, updates, Duplicate, Record, Table, Timestamp};

verus! {

/// The fields of a haiku, as given to a create.
#[derive(Debug)]
pub struct InputHaiku {
    pub content: String,
    pub is_funny: bool,
}

/// A stored haiku.
pub type Haiku = Record<InputHaiku>;

/// The table that holds the haikus.
pub type HaikuStore = Table<InputHaiku>;

/// A partial change of a haiku: `None` leaves the field as it is.
#[derive(Debug)]
pub struct UpdateHaiku {
    pub content: Option<String>,
    pub is_funny: Option<bool>,
}

impl Duplicate for InputHaiku {
    fn duplicate(&self) -> (r: Self) {
        InputHaiku { content: self.content.clone(), is_funny: self.is_funny }
    }
}

impl InputHaiku {
    /// The text is present.
    pub open spec fn is_valid(&self) -> bool {
        self.content@.len() > 0
    }

    pub fn validate(&self) -> (r: bool)
        ensures
            r == self.is_valid(),
    {
        !self.content.as_str().is_empty()
    }

    /// Stores a new haiku made of `input`, created at `now`.
    pub fn create(store: &mut HaikuStore, input: InputHaiku, now: Timestamp) -> (r: Result<
        Haiku,
        ApiError,
    >)
        requires
            old(store).wf(),
        ensures
            final(store).wf(),
            creates(
                *old(store),
                if input.is_valid() {
                    None
                } else {
                    Some(ApiError::Validation)
                },
                input,
                now,
                r,
                *final(store),
            ),
    {
        if !input.validate() {
            return Err(ApiError::Validation);
        }
        store.insert(input, now)
    }
}

impl UpdateHaiku {
    /// `cur` with each field that this change provides replaced.
    pub open spec fn merged(&self, cur: InputHaiku) -> InputHaiku {
        InputHaiku {
            content: match self.content {
                Some(c) => c,
                None => cur.content,
            },
            is_funny: match self.is_funny {
                Some(f) => f,
                None => cur.is_funny,
            },
        }
    }

    pub fn merge(&self, cur: &InputHaiku) -> (r: InputHaiku)
        ensures
            r == self.merged(*cur),
    {
        let content = match &self.content {
            Some(c) => c.clone(),
            None => cur.content.clone(),
        };
        let is_funny = match self.is_funny {
            Some(f) => f,
            None => cur.is_funny,
        };
        InputHaiku { content, is_funny }
    }

    /// Applies `input` to the active haiku `id` at `now`.
    pub fn update(store: &mut HaikuStore, id: u64, input: UpdateHaiku, now: Timestamp) -> (r:
        Result<Haiku, ApiError>)
        requires
            old(store).wf(),
        ensures
            final(store).wf(),
            updates(*old(store), id, None, input.merged(old(store)@[id].data), now, r, *final(store)),
    {
        let cur = store.get(id)?;
        let data = input.merge(&cur.data);
        store.revise(id, data, now)
    }
}

} // verus!
