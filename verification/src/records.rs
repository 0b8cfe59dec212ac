//! The repository of upload records.

use vstd::prelude::*;
use crate::entity::{UploadRecords, UploadRecordsView};
use crate::error::RepositoryError;
use crate::rows::{created, deleted, found, lists, well_formed};

verus! {

/// The values of a sequence of records, in the same order.
pub open spec fn record_views(records: Seq<UploadRecords>) -> Seq<UploadRecordsView> {
    records.map_values(|record: UploadRecords| record@)
}

/// A store of upload records.
///
/// A record is created, read and deleted; there is no operation that changes
/// one. An operation either succeeds, reports that the row it named is not
/// there, or reports that the store failed. After a store failure nothing is
/// promised of the rows but that they are well formed.
pub trait UploadRecordsRepository {
    /// The rows that the store holds, by identity.
    spec fn records(&self) -> Map<i64, UploadRecordsView>;

    /// Stores `entity` as a new row under an identity that the store picks.
    /// The `id` of `entity` is not looked at. The result is the row as
    /// stored: `entity` under its new identity, which is not `0` and was not
    /// in use.
    fn create(&mut self, entity: UploadRecords) -> (outcome: Result<UploadRecords, RepositoryError>)
        ensures
            well_formed(final(self).records()),
            match outcome {
                Ok(stored) => {
                    &&& stored.id != 0
                    &&& stored@ == entity@.with_id(stored.id)
                    &&& found(old(self).records(), stored.id) is None
                    &&& final(self).records() == created(old(self).records(), stored@)
                },
                Err(error) => error is PersistenceError,
            },
    ;

    /// Removes the row with identity `id` for good.
    fn delete(&mut self, id: i64) -> (outcome: Result<(), RepositoryError>)
        ensures
            well_formed(final(self).records()),
            match outcome {
                Ok(_) => {
                    &&& found(old(self).records(), id) is Some
                    &&& final(self).records() == deleted(old(self).records(), id)
                },
                Err(RepositoryError::NotFound) => {
                    &&& found(old(self).records(), id) is None
                    &&& final(self).records() == old(self).records()
                },
                Err(RepositoryError::PersistenceError(_)) => true,
            },
    ;

    /// All rows of the store, in the store's own order.
    fn get_all(&self) -> (outcome: Result<Vec<UploadRecords>, RepositoryError>)
        ensures
            well_formed(self.records()),
            match outcome {
                Ok(all) => lists(self.records(), record_views(all@)),
                Err(error) => error is PersistenceError,
            },
    ;

    /// The row with identity `id`.
    fn get_by_id(&self, id: i64) -> (outcome: Result<UploadRecords, RepositoryError>)
        ensures
            well_formed(self.records()),
            match outcome {
                Ok(record) => found(self.records(), id) == Some(record@),
                Err(RepositoryError::NotFound) => found(self.records(), id) is None,
                Err(RepositoryError::PersistenceError(_)) => true,
            },
    ;
}

} // verus!
