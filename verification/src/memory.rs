//! Stores that keep their rows in memory.

use vstd::prelude::*;
use vstd::seq_lib::*;
use crate::entity::{StudioEntity, StudioEntityView, UploadRecords, UploadRecordsView};
use crate::error::RepositoryError;
use crate::records::{record_views, UploadRecordsRepository};
use crate::rows::{created, deleted, found, lists, updated, well_formed, Identified};
use crate::streamers::{template_views, UploadStreamersRepository};

verus! {

/// The store that a sequence of rows stands for: each row filed under its
/// identity.
spec fn rows_of<R: Identified>(held: Seq<R>) -> Map<i64, R> {
    Map::new(
        |id: i64| exists|i: int| 0 <= i < held.len() && held[i].identity() == id,
        |id: i64| held[choose|i: int| 0 <= i < held.len() && held[i].identity() == id],
    )
}

/// The rows come in the order of their identities, which lie between `1` and
/// `issued`.
spec fn in_order<R: Identified>(held: Seq<R>, issued: i64) -> bool {
    &&& 0 <= issued
    &&& forall|i: int| 0 <= i < held.len() ==> 0 < (#[trigger] held[i]).identity() <= issued
    &&& forall|i: int, j: int|
        0 <= i < j < held.len() ==> (#[trigger] held[i]).identity() < (
        #[trigger] held[j]).identity()
}

/// A row that stands in the sequence is the store's row under its identity:
/// identities rise along the sequence, so no other row carries the same one.
proof fn lemma_row_at<R: Identified>(held: Seq<R>, issued: i64, i: int)
    requires
        in_order(held, issued),
        0 <= i < held.len(),
    ensures
        found(rows_of(held), held[i].identity()) == Some(held[i]),
{
    let chosen = choose|k: int| 0 <= k < held.len() && held[k].identity() == held[i].identity();
    assert(chosen == i);
}

/// Rows in order stand for a well-formed store, which they list, and whose
/// identities lie between `1` and `issued`.
proof fn lemma_rows_of<R: Identified>(held: Seq<R>, issued: i64)
    requires
        in_order(held, issued),
    ensures
        well_formed(rows_of(held)),
        lists(rows_of(held), held),
        forall|id: i64| rows_of(held).contains_key(id) ==> 0 < id <= issued,
{
    let rows = rows_of(held);
    let ids = held.map_values(|row: R| row.identity());
    assert(rows.dom() =~= ids.to_set()) by {
        assert forall|id: i64| rows.dom().contains(id) implies ids.to_set().contains(id) by {
            let i = choose|i: int| 0 <= i < held.len() && held[i].identity() == id;
            assert(ids[i] == id);
        }
    }
    seq_to_set_is_finite(ids);
    assert forall|i: int| 0 <= i < held.len() implies found(
        rows,
        (#[trigger] held[i]).identity(),
    ) == Some(held[i]) by {
        lemma_row_at(held, issued, i);
    }
    assert forall|id: i64| rows.contains_key(id) implies (#[trigger] rows[id]).identity() == id
        && 0 < id <= issued by {
        let i = choose|i: int| 0 <= i < held.len() && held[i].identity() == id;
        lemma_row_at(held, issued, i);
    }
}

/// A row with a new, larger identity, put at the end, is one more row of the
/// store.
proof fn lemma_rows_of_push<R: Identified>(held: Seq<R>, issued: i64, last: R)
    requires
        in_order(held, issued),
        issued < last.identity(),
    ensures
        in_order(held.push(last), last.identity()),
        rows_of(held.push(last)) == created(rows_of(held), last),
{
    let longer = held.push(last);
    let before = rows_of(held);
    let after = rows_of(longer);
    lemma_rows_of(held, issued);
    assert forall|id: i64| created(before, last).contains_key(id) implies after.contains_key(
        id,
    ) by {
        if id == last.identity() {
            assert(longer[held.len() as int].identity() == id);
        } else {
            let i = choose|i: int| 0 <= i < held.len() && held[i].identity() == id;
            assert(longer[i].identity() == id);
        }
    }
    assert forall|id: i64| after.contains_key(id) implies created(before, last).contains_key(id)
        && after[id] == created(before, last)[id] by {
        let i = choose|i: int| 0 <= i < longer.len() && longer[i].identity() == id;
        lemma_row_at(longer, last.identity(), i);
        if i < held.len() {
            lemma_row_at(held, issued, i);
        }
    }
    assert(after =~= created(before, last));
}

/// Taking the row at `at` out deletes it from the store, and no other.
proof fn lemma_rows_of_remove<R: Identified>(held: Seq<R>, issued: i64, at: int)
    requires
        in_order(held, issued),
        0 <= at < held.len(),
    ensures
        in_order(held.remove(at), issued),
        rows_of(held.remove(at)) == deleted(rows_of(held), held[at].identity()),
{
    let shorter = held.remove(at);
    let gone = held[at].identity();
    let before = rows_of(held);
    let after = rows_of(shorter);
    assert(in_order(shorter, issued));
    assert forall|id: i64| deleted(before, gone).contains_key(id) implies after.contains_key(
        id,
    ) by {
        let i = choose|i: int| 0 <= i < held.len() && held[i].identity() == id;
        let to = if i < at { i } else { i - 1 };
        assert(shorter[to].identity() == id);
    }
    assert forall|id: i64| after.contains_key(id) implies deleted(before, gone).contains_key(id)
        && after[id] == deleted(before, gone)[id] by {
        let i = choose|i: int| 0 <= i < shorter.len() && shorter[i].identity() == id;
        let from = if i < at { i } else { i + 1 };
        lemma_row_at(shorter, issued, i);
        lemma_row_at(held, issued, from);
    }
    assert(after =~= deleted(before, gone));
}

/// Putting a row in the place of one with the same identity replaces that
/// row in the store, and no other.
proof fn lemma_rows_of_update<R: Identified>(held: Seq<R>, issued: i64, at: int, row: R)
    requires
        in_order(held, issued),
        0 <= at < held.len(),
        held[at].identity() == row.identity(),
    ensures
        in_order(held.update(at, row), issued),
        rows_of(held.update(at, row)) == updated(rows_of(held), row),
{
    let changed = held.update(at, row);
    let before = rows_of(held);
    let after = rows_of(changed);
    assert(in_order(changed, issued));
    lemma_row_at(held, issued, at);
    assert forall|id: i64| updated(before, row).contains_key(id) implies after.contains_key(
        id,
    ) by {
        let i = choose|i: int| 0 <= i < held.len() && held[i].identity() == id;
        assert(changed[i].identity() == id);
    }
    assert forall|id: i64| after.contains_key(id) implies updated(before, row).contains_key(id)
        && after[id] == updated(before, row)[id] by {
        let i = choose|i: int| 0 <= i < changed.len() && changed[i].identity() == id;
        lemma_row_at(changed, issued, i);
        lemma_row_at(held, issued, i);
    }
    assert(after =~= updated(before, row));
}

/// A store of templates in memory. Identities are handed out from `1`
/// upwards, and one that was handed out is never used again.
pub struct MemoryStreamers {
    rows: Vec<StudioEntity>,
    issued: i64,
}

impl MemoryStreamers {
    #[verifier::type_invariant]
    spec fn ordered(self) -> bool {
        in_order(template_views(self.rows@), self.issued)
    }

    /// The last identity that the store handed out; `0` before the first.
    pub closed spec fn issued(&self) -> i64 {
        self.issued
    }

    /// An empty store.
    pub fn new() -> (store: Self)
        ensures
            store.streamers() == Map::<i64, StudioEntityView>::empty(),
            store.issued() == 0,
    {
        MemoryStreamers { rows: Vec::new(), issued: 0 }
    }

    /// An empty store that has handed out the identities up to `issued`
    /// already, so that the next row gets `issued + 1`. There is no such
    /// store for a negative `issued`.
    pub fn starting_after(issued: i64) -> (store: Option<Self>)
        ensures
            store is Some <==> issued >= 0,
            store matches Some(store) ==> {
                &&& store.streamers() == Map::<i64, StudioEntityView>::empty()
                &&& store.issued() == issued
            },
    {
        if issued < 0 {
            return None;
        }
        Some(MemoryStreamers { rows: Vec::new(), issued })
    }

    /// Where the row with identity `id` stands.
    fn position(&self, id: i64) -> (at: Option<usize>)
        ensures
            match at {
                Some(i) => i < self.rows.len() && self.rows[i as int].id == id,
                None => found(self.streamers(), id) is None,
            },
    {
        let mut i: usize = 0;
        while i < self.rows.len()
            invariant
                i <= self.rows.len(),
                forall|k: int| 0 <= k < i ==> self.rows[k].id != id,
            decreases self.rows.len() - i,
        {
            if self.rows[i].id == id {
                return Some(i);
            }
            i += 1;
        }
        assert forall|k: int| 0 <= k < self.rows.len() implies (#[trigger] template_views(
            self.rows@,
        )[k]).identity() != id by {}
        None
    }
}

impl UploadStreamersRepository for MemoryStreamers {
    closed spec fn streamers(&self) -> Map<i64, StudioEntityView> {
        rows_of(template_views(self.rows@))
    }

    /// Fails when no identity is left to hand out, and only then; the store
    /// is then as it was.
    fn create_streamer(&mut self, studio: StudioEntity) -> (outcome: Result<
        StudioEntity,
        RepositoryError,
    >)
        ensures
            outcome is Ok <==> old(self).issued() < i64::MAX,
            outcome matches Ok(stored) ==> {
                &&& stored.id == old(self).issued() + 1
                &&& final(self).issued() == stored.id
            },
            outcome is Err ==> *final(self) == *old(self),
    {
        proof {
            use_type_invariant(&*self);
            lemma_rows_of(template_views(self.rows@), self.issued);
        }
        if self.issued == i64::MAX {
            return Err(RepositoryError::PersistenceError("no identity left".to_owned()));
        }
        let id: i64 = self.issued + 1;
        let mut stored = studio;
        stored.id = id;
        let mut rows: Vec<StudioEntity> = Vec::new();
        std::mem::swap(&mut rows, &mut self.rows);
        rows.push(stored.clone());
        proof {
            let before = template_views(old(self).rows@);
            assert(template_views(rows@) =~= before.push(stored@));
            lemma_rows_of_push(before, old(self).issued, stored@);
            lemma_rows_of(template_views(rows@), id);
        }
        self.issued = id;
        self.rows = rows;
        Ok(stored)
    }

    /// Succeeds where the store holds the row, and reports `NotFound` where
    /// it does not.
    fn delete_streamer(&mut self, id: i64) -> (outcome: Result<(), RepositoryError>)
        ensures
            outcome is Ok <==> found(old(self).streamers(), id) is Some,
            outcome matches Err(error) ==> error is NotFound,
            final(self).issued() == old(self).issued(),
    {
        proof {
            use_type_invariant(&*self);
            lemma_rows_of(template_views(self.rows@), self.issued);
        }
        match self.position(id) {
            Some(at) => {
                let mut rows: Vec<StudioEntity> = Vec::new();
                std::mem::swap(&mut rows, &mut self.rows);
                let _ = rows.remove(at);
                proof {
                    let before = template_views(old(self).rows@);
                    assert(template_views(rows@) =~= before.remove(at as int));
                    lemma_rows_of_remove(before, self.issued, at as int);
                    lemma_rows_of(template_views(rows@), self.issued);
                }
                self.rows = rows;
                Ok(())
            },
            None => Err(RepositoryError::NotFound),
        }
    }

    /// Succeeds where the store holds a row with the identity of `studio`,
    /// and reports `NotFound` where it does not.
    fn update_streamer(&mut self, studio: StudioEntity) -> (outcome: Result<
        StudioEntity,
        RepositoryError,
    >)
        ensures
            outcome is Ok <==> found(old(self).streamers(), studio.id) is Some,
            outcome matches Err(error) ==> error is NotFound,
            final(self).issued() == old(self).issued(),
    {
        proof {
            use_type_invariant(&*self);
            lemma_rows_of(template_views(self.rows@), self.issued);
        }
        match self.position(studio.id) {
            Some(at) => {
                let mut rows: Vec<StudioEntity> = Vec::new();
                std::mem::swap(&mut rows, &mut self.rows);
                rows.set(at, studio.clone());
                proof {
                    let before = template_views(old(self).rows@);
                    assert(template_views(rows@) =~= before.update(at as int, studio@));
                    lemma_rows_of_update(before, self.issued, at as int, studio@);
                    lemma_rows_of(template_views(rows@), self.issued);
                }
                self.rows = rows;
                Ok(studio)
            },
            None => Err(RepositoryError::NotFound),
        }
    }

    /// Never fails. The rows come in the order of their identities, which is
    /// the order in which they were created.
    fn get_streamers(&self) -> (outcome: Result<Vec<StudioEntity>, RepositoryError>)
        ensures
            outcome is Ok,
            outcome matches Ok(all) ==> forall|i: int, j: int|
                0 <= i < j < all.len() ==> all[i].id < all[j].id,
    {
        proof {
            use_type_invariant(self);
            lemma_rows_of(template_views(self.rows@), self.issued);
        }
        let mut all: Vec<StudioEntity> = Vec::new();
        let mut i: usize = 0;
        while i < self.rows.len()
            invariant
                i <= self.rows.len(),
                all.len() == i,
                forall|k: int| 0 <= k < i ==> all[k] == self.rows[k],
            decreases self.rows.len() - i,
        {
            all.push(self.rows[i].clone());
            i += 1;
        }
        assert(all@ =~= self.rows@);
        assert forall|i: int, j: int| 0 <= i < j < all.len() implies all[i].id < all[j].id by {
            assert(template_views(self.rows@)[i].identity() < template_views(
                self.rows@,
            )[j].identity());
        }
        Ok(all)
    }

    /// Succeeds where the store holds the row, and reports `NotFound` where
    /// it does not.
    fn get_streamer_by_id(&self, id: i64) -> (outcome: Result<StudioEntity, RepositoryError>)
        ensures
            outcome is Ok <==> found(self.streamers(), id) is Some,
            outcome matches Err(error) ==> error is NotFound,
    {
        proof {
            use_type_invariant(self);
            lemma_rows_of(template_views(self.rows@), self.issued);
        }
        match self.position(id) {
            Some(at) => {
                assert(template_views(self.rows@)[at as int] == self.rows[at as int]@);
                Ok(self.rows[at].clone())
            },
            None => Err(RepositoryError::NotFound),
        }
    }
}

/// A store of upload records in memory. Identities are handed out from `1`
/// upwards, and one that was handed out is never used again.
pub struct MemoryRecords {
    rows: Vec<UploadRecords>,
    issued: i64,
}

impl MemoryRecords {
    #[verifier::type_invariant]
    spec fn ordered(self) -> bool {
        in_order(record_views(self.rows@), self.issued)
    }

    /// The last identity that the store handed out; `0` before the first.
    pub closed spec fn issued(&self) -> i64 {
        self.issued
    }

    /// An empty store.
    pub fn new() -> (store: Self)
        ensures
            store.records() == Map::<i64, UploadRecordsView>::empty(),
            store.issued() == 0,
    {
        MemoryRecords { rows: Vec::new(), issued: 0 }
    }

    /// An empty store that has handed out the identities up to `issued`
    /// already, so that the next row gets `issued + 1`. There is no such
    /// store for a negative `issued`.
    pub fn starting_after(issued: i64) -> (store: Option<Self>)
        ensures
            store is Some <==> issued >= 0,
            store matches Some(store) ==> {
                &&& store.records() == Map::<i64, UploadRecordsView>::empty()
                &&& store.issued() == issued
            },
    {
        if issued < 0 {
            return None;
        }
        Some(MemoryRecords { rows: Vec::new(), issued })
    }

    /// Where the row with identity `id` stands.
    fn position(&self, id: i64) -> (at: Option<usize>)
        ensures
            match at {
                Some(i) => i < self.rows.len() && self.rows[i as int].id == id,
                None => found(self.records(), id) is None,
            },
    {
        let mut i: usize = 0;
        while i < self.rows.len()
            invariant
                i <= self.rows.len(),
                forall|k: int| 0 <= k < i ==> self.rows[k].id != id,
            decreases self.rows.len() - i,
        {
            if self.rows[i].id == id {
                return Some(i);
            }
            i += 1;
        }
        assert forall|k: int| 0 <= k < self.rows.len() implies (#[trigger] record_views(
            self.rows@,
        )[k]).identity() != id by {}
        None
    }
}

impl UploadRecordsRepository for MemoryRecords {
    closed spec fn records(&self) -> Map<i64, UploadRecordsView> {
        rows_of(record_views(self.rows@))
    }

    /// Fails when no identity is left to hand out, and only then; the store
    /// is then as it was.
    fn create(&mut self, entity: UploadRecords) -> (outcome: Result<
        UploadRecords,
        RepositoryError,
    >)
        ensures
            outcome is Ok <==> old(self).issued() < i64::MAX,
            outcome matches Ok(stored) ==> {
                &&& stored.id == old(self).issued() + 1
                &&& final(self).issued() == stored.id
            },
            outcome is Err ==> *final(self) == *old(self),
    {
        proof {
            use_type_invariant(&*self);
            lemma_rows_of(record_views(self.rows@), self.issued);
        }
        if self.issued == i64::MAX {
            return Err(RepositoryError::PersistenceError("no identity left".to_owned()));
        }
        let id: i64 = self.issued + 1;
        let mut stored = entity;
        stored.id = id;
        let mut rows: Vec<UploadRecords> = Vec::new();
        std::mem::swap(&mut rows, &mut self.rows);
        rows.push(stored.clone());
        proof {
            let before = record_views(old(self).rows@);
            assert(record_views(rows@) =~= before.push(stored@));
            lemma_rows_of_push(before, old(self).issued, stored@);
            lemma_rows_of(record_views(rows@), id);
        }
        self.issued = id;
        self.rows = rows;
        Ok(stored)
    }

    /// Succeeds where the store holds the row, and reports `NotFound` where
    /// it does not.
    fn delete(&mut self, id: i64) -> (outcome: Result<(), RepositoryError>)
        ensures
            outcome is Ok <==> found(old(self).records(), id) is Some,
            outcome matches Err(error) ==> error is NotFound,
            final(self).issued() == old(self).issued(),
    {
        proof {
            use_type_invariant(&*self);
            lemma_rows_of(record_views(self.rows@), self.issued);
        }
        match self.position(id) {
            Some(at) => {
                let mut rows: Vec<UploadRecords> = Vec::new();
                std::mem::swap(&mut rows, &mut self.rows);
                let _ = rows.remove(at);
                proof {
                    let before = record_views(old(self).rows@);
                    assert(record_views(rows@) =~= before.remove(at as int));
                    lemma_rows_of_remove(before, self.issued, at as int);
                    lemma_rows_of(record_views(rows@), self.issued);
                }
                self.rows = rows;
                Ok(())
            },
            None => Err(RepositoryError::NotFound),
        }
    }

    /// Never fails. The rows come in the order of their identities, which is
    /// the order in which they were created.
    fn get_all(&self) -> (outcome: Result<Vec<UploadRecords>, RepositoryError>)
        ensures
            outcome is Ok,
            outcome matches Ok(all) ==> forall|i: int, j: int|
                0 <= i < j < all.len() ==> all[i].id < all[j].id,
    {
        proof {
            use_type_invariant(self);
            lemma_rows_of(record_views(self.rows@), self.issued);
        }
        let mut all: Vec<UploadRecords> = Vec::new();
        let mut i: usize = 0;
        while i < self.rows.len()
            invariant
                i <= self.rows.len(),
                all.len() == i,
                forall|k: int| 0 <= k < i ==> all[k] == self.rows[k],
            decreases self.rows.len() - i,
        {
            all.push(self.rows[i].clone());
            i += 1;
        }
        assert(all@ =~= self.rows@);
        assert forall|i: int, j: int| 0 <= i < j < all.len() implies all[i].id < all[j].id by {
            assert(record_views(self.rows@)[i].identity() < record_views(
                self.rows@,
            )[j].identity());
        }
        Ok(all)
    }

    /// Succeeds where the store holds the row, and reports `NotFound` where
    /// it does not.
    fn get_by_id(&self, id: i64) -> (outcome: Result<UploadRecords, RepositoryError>)
        ensures
            outcome is Ok <==> found(self.records(), id) is Some,
            outcome matches Err(error) ==> error is NotFound,
    {
        proof {
            use_type_invariant(self);
            lemma_rows_of(record_views(self.rows@), self.issued);
        }
        match self.position(id) {
            Some(at) => {
                assert(record_views(self.rows@)[at as int] == self.rows[at as int]@);
                Ok(self.rows[at].clone())
            },
            None => Err(RepositoryError::NotFound),
        }
    }
}

} // verus!
