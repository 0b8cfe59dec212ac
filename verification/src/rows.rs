//! What a store holds, what each operation makes of it, and what follows.
//!
//! A store is taken as a map from identities to rows. The functions here say
//! what a store that does not fail makes of such a map; the repositories
//! state their operations in these terms.

use vstd::prelude::*;
use vstd::seq_lib::*;
use vstd::set_lib::*;

verus! {

/// A row: a value that a store files under an identity.
pub trait Identified {
    /// The identity that the row carries.
    spec fn identity(&self) -> i64;
}

/// What every store holds at all times: finitely many rows, each filed under
/// its own identity, none under `0`.
pub open spec fn well_formed<R: Identified>(rows: Map<i64, R>) -> bool {
    &&& rows.dom().finite()
    &&& !rows.contains_key(0)
    &&& forall|id: i64| rows.contains_key(id) ==> (#[trigger] rows[id]).identity() == id
}

/// The row with identity `id`, if the store holds one.
pub open spec fn found<R>(rows: Map<i64, R>, id: i64) -> Option<R> {
    if rows.contains_key(id) {
        Some(rows[id])
    } else {
        None
    }
}

/// The rows after `stored` was created.
pub open spec fn created<R: Identified>(rows: Map<i64, R>, stored: R) -> Map<i64, R> {
    rows.insert(stored.identity(), stored)
}

/// The rows after the row with the identity of `row` was replaced by `row` as
/// a whole. Where the store holds no such row, nothing changes.
pub open spec fn updated<R: Identified>(rows: Map<i64, R>, row: R) -> Map<i64, R> {
    if rows.contains_key(row.identity()) {
        rows.insert(row.identity(), row)
    } else {
        rows
    }
}

/// The rows after the row with identity `id` was deleted.
pub open spec fn deleted<R>(rows: Map<i64, R>, id: i64) -> Map<i64, R> {
    rows.remove(id)
}

/// `all` lists `rows`: every row of the store once, and nothing else, in
/// whatever order.
pub open spec fn lists<R: Identified>(rows: Map<i64, R>, all: Seq<R>) -> bool {
    &&& forall|i: int|
        0 <= i < all.len() ==> found(rows, (#[trigger] all[i]).identity()) == Some(all[i])
    &&& forall|i: int, j: int|
        0 <= i < j < all.len() ==> (#[trigger] all[i]).identity() != (#[trigger] all[j]).identity()
    &&& forall|id: i64| #[trigger]
        rows.contains_key(id) ==> exists|i: int|
            0 <= i < all.len() && (#[trigger] all[i]).identity() == id
}

/// The rows after the rows of `stored` were created one after another.
pub open spec fn created_all<R: Identified>(rows: Map<i64, R>, stored: Seq<R>) -> Map<i64, R>
    decreases stored.len(),
{
    if stored.len() == 0 {
        rows
    } else {
        created(created_all(rows, stored.drop_last()), stored.last())
    }
}

/// Each row of `stored` got an identity that the store did not hold when its
/// turn came.
pub open spec fn each_fresh<R: Identified>(rows: Map<i64, R>, stored: Seq<R>) -> bool
    decreases stored.len(),
{
    stored.len() == 0 || {
        &&& each_fresh(rows, stored.drop_last())
        &&& found(created_all(rows, stored.drop_last()), stored.last().identity()) is None
    }
}

/// A row that was created is found under its identity, equal in every field
/// to what the create returned.
pub proof fn lemma_created_is_found<R: Identified>(rows: Map<i64, R>, stored: R)
    ensures
        found(created(rows, stored), stored.identity()) == Some(stored),
{
}

/// Updating twice with the same row leaves the store as updating once does,
/// and the second update finds the row where the first did.
pub proof fn lemma_update_is_idempotent<R: Identified>(rows: Map<i64, R>, row: R)
    ensures
        updated(updated(rows, row), row) == updated(rows, row),
        found(updated(rows, row), row.identity()) is Some <==> found(rows, row.identity()) is Some,
{
}

/// A row that was deleted is no longer found.
pub proof fn lemma_deleted_is_not_found<R>(rows: Map<i64, R>, id: i64)
    ensures
        found(deleted(rows, id), id) is None,
{
}

/// After rows were created one after another, and none deleted, the store
/// holds each of them as it was created, and what it held before.
pub proof fn lemma_created_all_are_found<R: Identified>(rows: Map<i64, R>, stored: Seq<R>)
    requires
        each_fresh(rows, stored),
    ensures
        forall|k: int|
            0 <= k < stored.len() ==> found(
                created_all(rows, stored),
                (#[trigger] stored[k]).identity(),
            ) == Some(stored[k]),
        forall|k: int, l: int|
            0 <= k < l < stored.len() ==> (#[trigger] stored[k]).identity() != (
            #[trigger] stored[l]).identity(),
        forall|id: i64| rows.contains_key(id) ==> created_all(rows, stored).contains_key(id),
    decreases stored.len(),
{
    if stored.len() > 0 {
        let earlier = stored.drop_last();
        lemma_created_all_are_found(rows, earlier);
        assert forall|k: int| 0 <= k < stored.len() implies found(
            created_all(rows, stored),
            (#[trigger] stored[k]).identity(),
        ) == Some(stored[k]) by {
            if k < stored.len() - 1 {
                assert(stored[k] == earlier[k]);
            }
        }
        assert forall|k: int, l: int| 0 <= k < l < stored.len() implies (
        #[trigger] stored[k]).identity() != (#[trigger] stored[l]).identity() by {
            assert(stored[k] == earlier[k]);
            if l < stored.len() - 1 {
                assert(stored[l] == earlier[l]);
            }
        }
    }
}

/// A listing has as many entries as the store has rows.
pub proof fn lemma_listing_counts_rows<R: Identified>(rows: Map<i64, R>, all: Seq<R>)
    requires
        lists(rows, all),
    ensures
        rows.dom().finite(),
        all.len() == rows.dom().len(),
{
    let ids = all.map_values(|row: R| row.identity());
    assert(ids.no_duplicates());
    assert(ids.to_set() =~= rows.dom()) by {
        assert forall|id: i64| ids.to_set().contains(id) implies rows.dom().contains(id) by {
            let i = choose|i: int| 0 <= i < ids.len() && ids[i] == id;
            assert(found(rows, all[i].identity()) == Some(all[i]));
        }
        assert forall|id: i64| rows.dom().contains(id) implies ids.to_set().contains(id) by {
            assert(rows.contains_key(id));
            let i = choose|i: int| 0 <= i < all.len() && all[i].identity() == id;
            assert(ids[i] == id);
        }
    }
    ids.unique_seq_to_set();
    seq_to_set_is_finite(ids);
}

/// After `n` rows were created one after another, and none deleted, a listing
/// of the store has at least `n` entries and holds each created row.
pub proof fn lemma_listing_holds_all_created<R: Identified>(
    rows: Map<i64, R>,
    stored: Seq<R>,
    all: Seq<R>,
)
    requires
        each_fresh(rows, stored),
        lists(created_all(rows, stored), all),
    ensures
        all.len() >= stored.len(),
        forall|k: int| 0 <= k < stored.len() ==> all.contains(#[trigger] stored[k]),
{
    let after = created_all(rows, stored);
    lemma_created_all_are_found(rows, stored);
    assert forall|k: int| 0 <= k < stored.len() implies all.contains(#[trigger] stored[k]) by {
        assert(after.contains_key(stored[k].identity()));
        let i = choose|i: int| 0 <= i < all.len() && all[i].identity() == stored[k].identity();
        assert(found(after, all[i].identity()) == Some(all[i]));
    }
    let stored_ids = stored.map_values(|row: R| row.identity());
    assert(stored_ids.no_duplicates());
    stored_ids.unique_seq_to_set();
    assert forall|id: i64| stored_ids.to_set().contains(id) implies after.dom().contains(id) by {
        let k = choose|k: int| 0 <= k < stored_ids.len() && stored_ids[k] == id;
        assert(after.contains_key(stored[k].identity()));
    }
    lemma_listing_counts_rows(after, all);
    lemma_len_subset(stored_ids.to_set(), after.dom());
}

} // verus!
