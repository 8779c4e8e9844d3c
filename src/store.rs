//! The soft-delete lifecycle store, written once for every resource kind.
//!
//! A [`Table`] owns the records of one kind. Each record carries an identity
//! that the table assigns from a counter and never hands out again, the
//! creation and last-mutation times, and the soft-delete mark. The abstract
//! state of a table is a map from identity to record.
use vstd::prelude::*;

use crate::errors::ApiError;

verus! {

/// A point in time, in microseconds since the Unix epoch (UTC).
pub type Timestamp = i64;

/// A deep copy that is proved equal to the value it copies.
pub trait Duplicate: Sized {
    fn duplicate(&self) -> (r: Self)
        ensures
            r == *self,
    ;
}

/// One stored entity: the lifecycle columns shared by all kinds, and the
/// kind's own fields in `data`.
#[derive(Debug)]
pub struct Record<T> {
    pub id: u64,
    pub created_at: Timestamp,
    pub updated_at: Timestamp,
    /// `None` while the entity is active; the time of the soft delete otherwise.
    pub deleted_at: Option<Timestamp>,
    pub data: T,
}

impl<T> Record<T> {
    pub open spec fn is_active(self) -> bool {
        self.deleted_at is None
    }

    /// The record that a create at `now` stores under `id`.
    pub open spec fn fresh(id: u64, now: Timestamp, data: T) -> Record<T> {
        Record { id, created_at: now, updated_at: now, deleted_at: None, data }
    }

    /// This record with its fields replaced, stamped at `now`.
    pub open spec fn revised(self, data: T, now: Timestamp) -> Record<T> {
        Record { data, updated_at: now, ..self }
    }

    /// This record marked as soft-deleted at `now`.
    pub open spec fn trashed(self, now: Timestamp) -> Record<T> {
        Record { deleted_at: Some(now), updated_at: now, ..self }
    }

    /// This record brought back to the active state at `now`.
    pub open spec fn restored(self, now: Timestamp) -> Record<T> {
        Record { deleted_at: None, updated_at: now, ..self }
    }
}

impl<T: Duplicate> Duplicate for Record<T> {
    fn duplicate(&self) -> (r: Self) {
        Record {
            id: self.id,
            created_at: self.created_at,
            updated_at: self.updated_at,
            deleted_at: self.deleted_at,
            data: self.data.duplicate(),
        }
    }
}

/// The abstract state of a table: each identity to its record.
pub type Rows<T> = Map<u64, Record<T>>;

/// `id` names an entity that is not soft-deleted.
pub open spec fn is_live<T>(m: Rows<T>, id: u64) -> bool {
    m.contains_key(id) && m[id].is_active()
}

/// `id` names an entity that is soft-deleted.
pub open spec fn is_trashed<T>(m: Rows<T>, id: u64) -> bool {
    m.contains_key(id) && !m[id].is_active()
}

/// The identities that a listing shows: those of the active entities.
pub open spec fn listed_ids<T>(m: Rows<T>) -> Set<u64> {
    Set::new(|q: u64| is_live(m, q))
}

/// What a read of `id` returns.
pub open spec fn get_outcome<T>(m: Rows<T>, id: u64) -> Result<Record<T>, ApiError> {
    if is_live(m, id) {
        Ok(m[id])
    } else {
        Err(ApiError::NotFound)
    }
}

/// What a change of the fields of `id` to `data` at `now` returns.
pub open spec fn revise_outcome<T>(m: Rows<T>, id: u64, data: T, now: Timestamp) -> Result<
    Record<T>,
    ApiError,
> {
    if is_live(m, id) {
        Ok(m[id].revised(data, now))
    } else {
        Err(ApiError::NotFound)
    }
}

/// The state after a change of the fields of `id` to `data` at `now`.
pub open spec fn revised_in<T>(m: Rows<T>, id: u64, data: T, now: Timestamp) -> Rows<T> {
    if is_live(m, id) {
        m.insert(id, m[id].revised(data, now))
    } else {
        m
    }
}

/// What a soft delete of `id` at `now` returns.
pub open spec fn delete_outcome<T>(m: Rows<T>, id: u64, now: Timestamp) -> Result<Record<T>, ApiError> {
    if is_live(m, id) {
        Ok(m[id].trashed(now))
    } else {
        Err(ApiError::NotFound)
    }
}

/// The state after a soft delete of `id` at `now`.
pub open spec fn deleted_in<T>(m: Rows<T>, id: u64, now: Timestamp) -> Rows<T> {
    if is_live(m, id) {
        m.insert(id, m[id].trashed(now))
    } else {
        m
    }
}

/// What a restore of `id` at `now` returns.
pub open spec fn restore_outcome<T>(m: Rows<T>, id: u64, now: Timestamp) -> Result<Record<T>, ApiError> {
    if is_trashed(m, id) {
        Ok(m[id].restored(now))
    } else {
        Err(ApiError::NotFound)
    }
}

/// The state after a restore of `id` at `now`.
pub open spec fn restored_in<T>(m: Rows<T>, id: u64, now: Timestamp) -> Rows<T> {
    if is_trashed(m, id) {
        m.insert(id, m[id].restored(now))
    } else {
        m
    }
}

/// What a hard delete of `id` returns.
pub open spec fn destroy_outcome<T>(m: Rows<T>, id: u64) -> Result<(), ApiError> {
    if m.contains_key(id) {
        Ok(())
    } else {
        Err(ApiError::NotFound)
    }
}

/// The state after a hard delete of `id`.
pub open spec fn destroyed_in<T>(m: Rows<T>, id: u64) -> Rows<T> {
    m.remove(id)
}

/// `r` shows exactly the active records of `m`, each once, in increasing
/// order of identity.
pub open spec fn lists_active<T>(m: Rows<T>, r: Seq<Record<T>>) -> bool {
    &&& forall|i: int| 0 <= i < r.len() ==> is_live(m, #[trigger] r[i].id) && r[i] == m[r[i].id]
    &&& forall|q: u64| #[trigger] is_live(m, q) ==> exists|i: int| 0 <= i < r.len() && r[i].id == q
    &&& forall|i: int, j: int| 0 <= i < j < r.len() ==> r[i].id < r[j].id
}

/// The effect of a create of `data` at `now`, refused with `refusal` when
/// that is given: the table is left as it was on a refusal, and when the
/// identity space is used up; otherwise the record takes the next identity.
pub open spec fn creates<T>(
    before: Table<T>,
    refusal: Option<ApiError>,
    data: T,
    now: Timestamp,
    r: Result<Record<T>, ApiError>,
    after: Table<T>,
) -> bool {
    match refusal {
        Some(e) => r == Err::<Record<T>, ApiError>(e) && after@ == before@ && after.next_id()
            == before.next_id(),
        None => if before.next_id() == u64::MAX {
            r == Err::<Record<T>, ApiError>(ApiError::ResourceExhausted) && after@ == before@
                && after.next_id() == before.next_id()
        } else {
            &&& r == Ok::<Record<T>, ApiError>(Record::fresh(before.next_id(), now, data))
            &&& !before@.contains_key(before.next_id())
            &&& after@ == before@.insert(before.next_id(), Record::fresh(before.next_id(), now, data))
            &&& after.next_id() == before.next_id() + 1
        },
    }
}

/// The effect of a change of the fields of `id` to `data` at `now`, refused
/// with `refusal` when that is given: only an active record changes.
pub open spec fn updates<T>(
    before: Table<T>,
    id: u64,
    refusal: Option<ApiError>,
    data: T,
    now: Timestamp,
    r: Result<Record<T>, ApiError>,
    after: Table<T>,
) -> bool {
    &&& after.next_id() == before.next_id()
    &&& if is_live(before@, id) && refusal is Some {
        r == Err::<Record<T>, ApiError>(refusal->Some_0) && after@ == before@
    } else {
        r == revise_outcome(before@, id, data, now) && after@ == revised_in(before@, id, data, now)
    }
}

/// The effect of a soft delete of `id` at `now`.
pub open spec fn deletes<T>(
    before: Table<T>,
    id: u64,
    now: Timestamp,
    r: Result<Record<T>, ApiError>,
    after: Table<T>,
) -> bool {
    &&& r == delete_outcome(before@, id, now)
    &&& after@ == deleted_in(before@, id, now)
    &&& after.next_id() == before.next_id()
}

/// The effect of a restore of `id` at `now`.
pub open spec fn restores<T>(
    before: Table<T>,
    id: u64,
    now: Timestamp,
    r: Result<Record<T>, ApiError>,
    after: Table<T>,
) -> bool {
    &&& r == restore_outcome(before@, id, now)
    &&& after@ == restored_in(before@, id, now)
    &&& after.next_id() == before.next_id()
}

/// The effect of a hard delete of `id`.
pub open spec fn destroys<T>(before: Table<T>, id: u64, r: Result<(), ApiError>, after: Table<T>) -> bool {
    &&& r == destroy_outcome(before@, id)
    &&& after@ == destroyed_in(before@, id)
    &&& after.next_id() == before.next_id()
}

/// The records of one resource kind.
///
/// Rows are kept in strictly increasing order of identity, and every
/// identity is below the counter `next_id`, which only grows: an identity
/// that was destroyed is never assigned again.
pub struct Table<T> {
    rows: Vec<Record<T>>,
    next_id: u64,
}

impl<T> View for Table<T> {
    type V = Map<u64, Record<T>>;

    closed spec fn view(&self) -> Map<u64, Record<T>> {
        Map::new(
            |q: u64| exists|i: int| 0 <= i < self.rows@.len() && self.rows@[i].id == q,
            |q: u64| self.rows@[choose|i: int| 0 <= i < self.rows@.len() && self.rows@[i].id == q],
        )
    }
}

impl<T> Table<T> {
    /// The identity that the next create assigns.
    pub closed spec fn next_id(&self) -> u64 {
        self.next_id
    }

    pub closed spec fn wf(&self) -> bool {
        &&& 1 <= self.next_id
        &&& forall|i: int, j: int|
            0 <= i < j < self.rows@.len() ==> self.rows@[i].id < self.rows@[j].id
        &&& forall|i: int| 0 <= i < self.rows@.len() ==> 1 <= #[trigger] self.rows@[i].id < self.next_id
    }

    proof fn lemma_rows_view(&self)
        requires
            self.wf(),
        ensures
            forall|i: int|
                0 <= i < self.rows@.len() ==> self@.contains_key(#[trigger] self.rows@[i].id)
                    && self@[self.rows@[i].id] == self.rows@[i],
            forall|q: u64|
                #[trigger] self@.contains_key(q) ==> exists|i: int|
                    0 <= i < self.rows@.len() && self.rows@[i].id == q,
    {
        assert forall|i: int| 0 <= i < self.rows@.len() implies self@.contains_key(
            #[trigger] self.rows@[i].id,
        ) && self@[self.rows@[i].id] == self.rows@[i] by {
            let q = self.rows@[i].id;
            assert(0 <= i < self.rows@.len() && self.rows@[i].id == q);
            let j = choose|j: int| 0 <= j < self.rows@.len() && self.rows@[j].id == q;
            if j < i {
                assert(self.rows@[j].id < self.rows@[i].id);
            } else if i < j {
                assert(self.rows@[i].id < self.rows@[j].id);
            }
        }
    }

    /// Every identity in the table is positive and below the counter.
    pub proof fn lemma_ids_below_counter(&self)
        requires
            self.wf(),
        ensures
            forall|q: u64| #[trigger] self@.contains_key(q) ==> 1 <= q < self.next_id(),
    {
        self.lemma_rows_view();
    }

    /// An empty table; the first identity it assigns is 1.
    pub fn new() -> (r: Self)
        ensures
            r.wf(),
            r@ == Map::<u64, Record<T>>::empty(),
            r.next_id() == 1,
    {
        let r = Table { rows: Vec::new(), next_id: 1 };
        assert(r@ =~= Map::<u64, Record<T>>::empty());
        r
    }

    fn find(&self, id: u64) -> (r: Option<usize>)
        requires
            self.wf(),
        ensures
            match r {
                Some(i) => i < self.rows@.len() && self.rows@[i as int].id == id,
                None => !self@.contains_key(id),
            },
    {
        let mut i: usize = 0;
        while i < self.rows.len()
            invariant
                i <= self.rows@.len(),
                forall|k: int| 0 <= k < i ==> self.rows@[k].id != id,
            decreases self.rows@.len() - i,
        {
            if self.rows[i].id == id {
                return Some(i);
            }
            i += 1;
        }
        None
    }
}

impl<T: Duplicate> Table<T> {
    /// All active records, in increasing order of identity.
    pub fn list(&self) -> (r: Vec<Record<T>>)
        requires
            self.wf(),
        ensures
            lists_active(self@, r@),
    {
        proof {
            self.lemma_rows_view();
        }
        let mut out: Vec<Record<T>> = Vec::new();
        let mut i: usize = 0;
        while i < self.rows.len()
            invariant
                self.wf(),
                i <= self.rows@.len(),
                forall|k: int|
                    0 <= k < self.rows@.len() ==> self@.contains_key(#[trigger] self.rows@[k].id)
                        && self@[self.rows@[k].id] == self.rows@[k],
                forall|k: int|
                    0 <= k < out.len() ==> is_live(self@, #[trigger] out@[k].id) && out@[k]
                        == self@[out@[k].id],
                forall|k: int|
                    0 <= k < i && self.rows@[k].is_active() ==> exists|m: int|
                        0 <= m < out.len() && out@[m].id == #[trigger] self.rows@[k].id,
                forall|k: int, m: int| 0 <= k < m < out.len() ==> out@[k].id < out@[m].id,
                i < self.rows@.len() ==> forall|k: int|
                    0 <= k < out.len() ==> out@[k].id < self.rows@[i as int].id,
            decreases self.rows@.len() - i,
        {
            if self.rows[i].deleted_at.is_none() {
                let rec = self.rows[i].duplicate();
                let ghost before = out@;
                out.push(rec);
                assert forall|k: int|
                    0 <= k <= i && self.rows@[k].is_active() implies exists|m: int|
                    0 <= m < out.len() && out@[m].id == #[trigger] self.rows@[k].id by {
                    if k < i {
                        let m = choose|m: int| 0 <= m < before.len() && before[m].id == self.rows@[k].id;
                        assert(out@[m] == before[m]);
                    } else {
                        assert(out@[before.len() as int].id == self.rows@[k].id);
                    }
                }
            }
            i += 1;
        }
        assert forall|q: u64| #[trigger] is_live(self@, q) implies exists|i: int|
            0 <= i < out.len() && out@[i].id == q by {
            let k = choose|k: int| 0 <= k < self.rows@.len() && self.rows@[k].id == q;
            assert(self.rows@[k].is_active());
        }
        out
    }

    /// Every record, active or soft-deleted, in increasing order of identity.
    pub fn all(&self) -> (r: Vec<Record<T>>)
        requires
            self.wf(),
        ensures
            forall|i: int|
                0 <= i < r.len() ==> self@.contains_key(#[trigger] r@[i].id) && r@[i] == self@[r@[i].id],
            forall|q: u64| #[trigger] self@.contains_key(q) ==> exists|i: int| 0 <= i < r.len() && r@[i].id == q,
            forall|i: int, j: int| 0 <= i < j < r.len() ==> r@[i].id < r@[j].id,
    {
        proof {
            self.lemma_rows_view();
        }
        let mut out: Vec<Record<T>> = Vec::new();
        let mut i: usize = 0;
        while i < self.rows.len()
            invariant
                i <= self.rows@.len(),
                out@ == self.rows@.subrange(0, i as int),
            decreases self.rows@.len() - i,
        {
            out.push(self.rows[i].duplicate());
            i += 1;
            assert(out@ =~= self.rows@.subrange(0, i as int));
        }
        assert(out@ =~= self.rows@);
        out
    }

    /// The active record with identity `id`.
    pub fn get(&self, id: u64) -> (r: Result<Record<T>, ApiError>)
        requires
            self.wf(),
        ensures
            r == get_outcome(self@, id),
    {
        proof {
            self.lemma_rows_view();
        }
        match self.find(id) {
            Some(i) => {
                if self.rows[i].deleted_at.is_none() {
                    Ok(self.rows[i].duplicate())
                } else {
                    Err(ApiError::NotFound)
                }
            },
            None => Err(ApiError::NotFound),
        }
    }
    /// Assigns the next identity to a new active record stamped at `now`.
    /// Fails with `ResourceExhausted` once the identity space is used up.
    pub fn insert(&mut self, data: T, now: Timestamp) -> (r: Result<Record<T>, ApiError>)
        requires
            old(self).wf(),
        ensures
            final(self).wf(),
            creates(*old(self), None, data, now, r, *final(self)),
    {
        if self.next_id == u64::MAX {
            return Err(ApiError::ResourceExhausted);
        }
        proof {
            self.lemma_rows_view();
        }
        let ghost before = *self;
        let rec = Record { id: self.next_id, created_at: now, updated_at: now, deleted_at: None, data };
        let out = rec.duplicate();
        self.rows.push(rec);
        self.next_id = self.next_id + 1;
        proof {
            assert(self.rows@ == before.rows@.push(out));
            self.lemma_rows_view();
            let want = before@.insert(out.id, out);
            assert forall|q: u64| #[trigger] self@.contains_key(q) <==> want.contains_key(q) by {
                if q == out.id {
                    assert(self.rows@[before.rows@.len() as int].id == q);
                }
                if want.contains_key(q) && q != out.id {
                    let k = choose|k: int| 0 <= k < before.rows@.len() && before.rows@[k].id == q;
                    assert(self.rows@[k] == before.rows@[k]);
                }
                if self@.contains_key(q) {
                    let k = choose|k: int| 0 <= k < self.rows@.len() && self.rows@[k].id == q;
                    if k < before.rows@.len() {
                        assert(self.rows@[k] == before.rows@[k]);
                    }
                }
            }
            assert forall|q: u64| #[trigger] self@.contains_key(q) implies self@[q] == want[q] by {
                let k = choose|k: int| 0 <= k < self.rows@.len() && self.rows@[k].id == q;
                if k < before.rows@.len() {
                    assert(self.rows@[k] == before.rows@[k]);
                }
            }
            assert(self@ =~= want);
        }
        Ok(out)
    }

    /// Replaces row `i` by a record with the same identity.
    fn replace_row(&mut self, i: usize, rec: Record<T>)
        requires
            old(self).wf(),
            i < old(self).rows@.len(),
            rec.id == old(self).rows@[i as int].id,
        ensures
            final(self).wf(),
            final(self)@ == old(self)@.insert(rec.id, rec),
            final(self).next_id() == old(self).next_id(),
    {
        proof {
            self.lemma_rows_view();
        }
        let ghost before = *self;
        let ghost new_rec = rec;
        self.rows.set(i, rec);
        proof {
            assert(self.rows@ == before.rows@.update(i as int, new_rec));
            self.lemma_rows_view();
            let want = before@.insert(new_rec.id, new_rec);
            assert forall|q: u64| #[trigger] self@.contains_key(q) <==> want.contains_key(q) by {
                if q == new_rec.id {
                    assert(self.rows@[i as int].id == q);
                }
                if want.contains_key(q) && q != new_rec.id {
                    let k = choose|k: int| 0 <= k < before.rows@.len() && before.rows@[k].id == q;
                    assert(self.rows@[k] == before.rows@[k]);
                }
                if self@.contains_key(q) {
                    let k = choose|k: int| 0 <= k < self.rows@.len() && self.rows@[k].id == q;
                    if k != i {
                        assert(self.rows@[k] == before.rows@[k]);
                    }
                }
            }
            assert forall|q: u64| #[trigger] self@.contains_key(q) implies self@[q] == want[q] by {
                let k = choose|k: int| 0 <= k < self.rows@.len() && self.rows@[k].id == q;
                if k != i {
                    assert(self.rows@[k] == before.rows@[k]);
                }
            }
            assert(self@ =~= want);
        }
    }

    /// Replaces the fields of the active record `id`, stamping it at `now`.
    pub fn revise(&mut self, id: u64, data: T, now: Timestamp) -> (r: Result<Record<T>, ApiError>)
        requires
            old(self).wf(),
        ensures
            final(self).wf(),
            updates(*old(self), id, None, data, now, r, *final(self)),
    {
        proof {
            self.lemma_rows_view();
        }
        match self.find(id) {
            Some(i) => {
                if self.rows[i].deleted_at.is_some() {
                    return Err(ApiError::NotFound);
                }
                let rec = Record {
                    id,
                    created_at: self.rows[i].created_at,
                    updated_at: now,
                    deleted_at: None,
                    data,
                };
                let out = rec.duplicate();
                self.replace_row(i, rec);
                Ok(out)
            },
            None => Err(ApiError::NotFound),
        }
    }

    /// Soft-deletes the active record `id` at `now`.
    pub fn delete(&mut self, id: u64, now: Timestamp) -> (r: Result<Record<T>, ApiError>)
        requires
            old(self).wf(),
        ensures
            final(self).wf(),
            deletes(*old(self), id, now, r, *final(self)),
    {
        proof {
            self.lemma_rows_view();
        }
        match self.find(id) {
            Some(i) => {
                if self.rows[i].deleted_at.is_some() {
                    return Err(ApiError::NotFound);
                }
                let mut rec = self.rows[i].duplicate();
                rec.deleted_at = Some(now);
                rec.updated_at = now;
                let out = rec.duplicate();
                self.replace_row(i, rec);
                Ok(out)
            },
            None => Err(ApiError::NotFound),
        }
    }

    /// Brings the soft-deleted record `id` back to the active state at `now`.
    pub fn restore(&mut self, id: u64, now: Timestamp) -> (r: Result<Record<T>, ApiError>)
        requires
            old(self).wf(),
        ensures
            final(self).wf(),
            restores(*old(self), id, now, r, *final(self)),
    {
        proof {
            self.lemma_rows_view();
        }
        match self.find(id) {
            Some(i) => {
                if self.rows[i].deleted_at.is_none() {
                    return Err(ApiError::NotFound);
                }
                let mut rec = self.rows[i].duplicate();
                rec.deleted_at = None;
                rec.updated_at = now;
                let out = rec.duplicate();
                self.replace_row(i, rec);
                Ok(out)
            },
            None => Err(ApiError::NotFound),
        }
    }

    /// Removes the record `id` for good, whatever its lifecycle state.
    /// Fails with `NotFound` when no record has that identity.
    pub fn destroy(&mut self, id: u64) -> (r: Result<(), ApiError>)
        requires
            old(self).wf(),
        ensures
            final(self).wf(),
            destroys(*old(self), id, r, *final(self)),
    {
        proof {
            self.lemma_rows_view();
        }
        match self.find(id) {
            Some(i) => {
                let ghost before = *self;
                let _gone = self.rows.remove(i);
                proof {
                    assert(self.rows@ == before.rows@.remove(i as int));
                    assert forall|a: int, b: int|
                        0 <= a < b < self.rows@.len() implies self.rows@[a].id < self.rows@[b].id by {
                        let a0 = if a < i { a } else { a + 1 };
                        let b0 = if b < i { b } else { b + 1 };
                        assert(self.rows@[a] == before.rows@[a0]);
                        assert(self.rows@[b] == before.rows@[b0]);
                    }
                    assert forall|a: int| 0 <= a < self.rows@.len() implies 1 <= #[trigger] self.rows@[a].id
                        < self.next_id by {
                        let a0 = if a < i { a } else { a + 1 };
                        assert(self.rows@[a] == before.rows@[a0]);
                    }
                    self.lemma_rows_view();
                    let want = before@.remove(id);
                    assert forall|q: u64| #[trigger] self@.contains_key(q) <==> want.contains_key(q) by {
                        if want.contains_key(q) {
                            let k = choose|k: int| 0 <= k < before.rows@.len() && before.rows@[k].id == q;
                            assert(k != i);
                            let k1 = if k < i { k } else { k - 1 };
                            assert(self.rows@[k1] == before.rows@[k]);
                        }
                        if self@.contains_key(q) {
                            let k = choose|k: int| 0 <= k < self.rows@.len() && self.rows@[k].id == q;
                            let k0 = if k < i { k } else { k + 1 };
                            assert(self.rows@[k] == before.rows@[k0]);
                            if k0 < i { assert(before.rows@[k0].id < before.rows@[i as int].id); }
                            else { assert(before.rows@[i as int].id < before.rows@[k0].id); }
                        }
                    }
                    assert forall|q: u64| #[trigger] self@.contains_key(q) implies self@[q] == want[q] by {
                        let k = choose|k: int| 0 <= k < self.rows@.len() && self.rows@[k].id == q;
                        let k0 = if k < i { k } else { k + 1 };
                        assert(self.rows@[k] == before.rows@[k0]);
                    }
                    assert(self@ =~= want);
                }
                Ok(())
            },
            None => {
                assert(self@.remove(id) =~= self@);
                Err(ApiError::NotFound)
            },
        }
    }
}

/// Once a soft delete of `id` succeeds, a read of `id` fails with
/// `NotFound` and a listing no longer shows `id`; a later restore succeeds
/// and hands back the same entity, active again.
pub proof fn law_soft_delete_hides<T>(m: Rows<T>, id: u64, now: Timestamp, later: Timestamp)
    requires
        delete_outcome(m, id, now) is Ok,
    ensures
        get_outcome(deleted_in(m, id, now), id) == Err::<Record<T>, ApiError>(ApiError::NotFound),
        !listed_ids(deleted_in(m, id, now)).contains(id),
        forall|r: Seq<Record<T>>|
            #[trigger] lists_active(deleted_in(m, id, now), r) ==> forall|i: int|
                0 <= i < r.len() ==> r[i].id != id,
        restore_outcome(deleted_in(m, id, now), id, later) == Ok::<Record<T>, ApiError>(
            m[id].restored(later),
        ),
        m[id].restored(later).deleted_at is None,
        m[id].restored(later).id == m[id].id,
        m[id].restored(later).data == m[id].data,
        m[id].restored(later).created_at == m[id].created_at,
{
}

/// A restore of an active entity fails with `NotFound` and changes nothing.
pub proof fn law_restore_needs_trashed<T>(m: Rows<T>, id: u64, now: Timestamp)
    requires
        is_live(m, id),
    ensures
        restore_outcome(m, id, now) == Err::<Record<T>, ApiError>(ApiError::NotFound),
        restored_in(m, id, now) == m,
{
}

/// A change of the fields of a soft-deleted entity fails with `NotFound`
/// and leaves the stored record as it was.
pub proof fn law_update_needs_active<T>(m: Rows<T>, id: u64, data: T, now: Timestamp)
    requires
        is_trashed(m, id),
    ensures
        revise_outcome(m, id, data, now) == Err::<Record<T>, ApiError>(ApiError::NotFound),
        revised_in(m, id, data, now) == m,
        revised_in(m, id, data, now)[id] == m[id],
{
}

/// After a hard delete of `id` succeeds, reads, changes, soft deletes and
/// restores of `id` fail with `NotFound`, and no later create assigns `id`
/// again: it lies below the table's counter, which only grows.
pub proof fn law_destroy_is_final<T>(
    t: Table<T>,
    id: u64,
    data: T,
    now: Timestamp,
)
    requires
        t.wf(),
        destroy_outcome(t@, id) is Ok,
    ensures
        get_outcome(destroyed_in(t@, id), id) == Err::<Record<T>, ApiError>(ApiError::NotFound),
        revise_outcome(destroyed_in(t@, id), id, data, now) == Err::<Record<T>, ApiError>(
            ApiError::NotFound,
        ),
        delete_outcome(destroyed_in(t@, id), id, now) == Err::<Record<T>, ApiError>(
            ApiError::NotFound,
        ),
        restore_outcome(destroyed_in(t@, id), id, now) == Err::<Record<T>, ApiError>(
            ApiError::NotFound,
        ),
        destroy_outcome(destroyed_in(t@, id), id) == Err::<(), ApiError>(ApiError::NotFound),
        id < t.next_id(),
{
    t.lemma_ids_below_counter();
}

/// A create assigns an identity that no record of the table has, stamps
/// creation and last change with the same time, and leaves the record active.
pub proof fn law_create_is_fresh<T>(t: Table<T>, data: T, now: Timestamp)
    requires
        t.wf(),
    ensures
        !t@.contains_key(t.next_id()),
        Record::fresh(t.next_id(), now, data).id == t.next_id(),
        Record::fresh(t.next_id(), now, data).created_at == Record::fresh(t.next_id(), now, data).updated_at,
        Record::fresh(t.next_id(), now, data).deleted_at is None,
        Record::fresh(t.next_id(), now, data).data == data,
{
    t.lemma_ids_below_counter();
}

/// An identity that is absent and below the counter (as one is after its
/// hard delete) stays absent and below the counter whatever operation runs
/// next, so every later operation on it fails with `NotFound`.
pub proof fn law_gone_stays_gone<T>(
    before: Table<T>,
    id: u64,
    other: u64,
    refusal: Option<ApiError>,
    data: T,
    now: Timestamp,
    r: Result<Record<T>, ApiError>,
    d: Result<(), ApiError>,
    after: Table<T>,
)
    requires
        !before@.contains_key(id),
        id < before.next_id(),
        creates(before, refusal, data, now, r, after) || updates(
            before,
            other,
            refusal,
            data,
            now,
            r,
            after,
        ) || deletes(before, other, now, r, after) || restores(before, other, now, r, after)
            || destroys(before, other, d, after),
    ensures
        !after@.contains_key(id),
        id < after.next_id(),
        get_outcome(after@, id) == Err::<Record<T>, ApiError>(ApiError::NotFound),
        revise_outcome(after@, id, data, now) == Err::<Record<T>, ApiError>(ApiError::NotFound),
        delete_outcome(after@, id, now) == Err::<Record<T>, ApiError>(ApiError::NotFound),
        restore_outcome(after@, id, now) == Err::<Record<T>, ApiError>(ApiError::NotFound),
        destroy_outcome(after@, id) == Err::<(), ApiError>(ApiError::NotFound),
{
}

} // verus!
