//! The repository of streamer upload templates.

use vstd::prelude::*;
use crate::entity::{StudioEntity, StudioEntityView};
use crate::error::RepositoryError;
use crate::rows::{created, deleted, found, lists, updated, well_formed};

verus! {

/// The values of a sequence of templates, in the same order.
pub open spec fn template_views(templates: Seq<StudioEntity>) -> Seq<StudioEntityView> {
    templates.map_values(|template: StudioEntity| template@)
}

/// A store of streamer upload templates.
///
/// The store owns the rows: what a caller holds is a copy. An operation
/// either succeeds, reports that the row it named is not there, or reports
/// that the store failed. After a store failure nothing is promised of the
/// rows but that they are well formed.
pub trait UploadStreamersRepository {
    /// The rows that the store holds, by identity.
    spec fn streamers(&self) -> Map<i64, StudioEntityView>;

    /// Stores `studio` as a new row under an identity that the store picks.
    /// The `id` of `studio` is not looked at. The result is the row as
    /// stored: `studio` under its new identity, which is not `0` and was not
    /// in use.
    fn create_streamer(&mut self, studio: StudioEntity) -> (outcome: Result<
        StudioEntity,
        RepositoryError,
    >)
        ensures
            well_formed(final(self).streamers()),
            match outcome {
                Ok(stored) => {
                    &&& stored.id != 0
                    &&& stored@ == studio@.with_id(stored.id)
                    &&& found(old(self).streamers(), stored.id) is None
                    &&& final(self).streamers() == created(old(self).streamers(), stored@)
                },
                Err(error) => error is PersistenceError,
            },
    ;

    /// Removes the row with identity `id` for good.
    fn delete_streamer(&mut self, id: i64) -> (outcome: Result<(), RepositoryError>)
        ensures
            well_formed(final(self).streamers()),
            match outcome {
                Ok(_) => {
                    &&& found(old(self).streamers(), id) is Some
                    &&& final(self).streamers() == deleted(old(self).streamers(), id)
                },
                Err(RepositoryError::NotFound) => {
                    &&& found(old(self).streamers(), id) is None
                    &&& final(self).streamers() == old(self).streamers()
                },
                Err(RepositoryError::PersistenceError(_)) => true,
            },
    ;

    /// Replaces the row that has the identity of `studio` by `studio`, every
    /// field of it. The result is the row as stored.
    fn update_streamer(&mut self, studio: StudioEntity) -> (outcome: Result<
        StudioEntity,
        RepositoryError,
    >)
        ensures
            well_formed(final(self).streamers()),
            match outcome {
                Ok(stored) => {
                    &&& found(old(self).streamers(), studio.id) is Some
                    &&& stored@ == studio@
                    &&& final(self).streamers() == updated(old(self).streamers(), studio@)
                },
                Err(RepositoryError::NotFound) => {
                    &&& found(old(self).streamers(), studio.id) is None
                    &&& final(self).streamers() == old(self).streamers()
                },
                Err(RepositoryError::PersistenceError(_)) => true,
            },
    ;

    /// All rows of the store, whoever owns them, in the store's own order.
    fn get_streamers(&self) -> (outcome: Result<Vec<StudioEntity>, RepositoryError>)
        ensures
            well_formed(self.streamers()),
            match outcome {
                Ok(all) => lists(self.streamers(), template_views(all@)),
                Err(error) => error is PersistenceError,
            },
    ;

    /// The row with identity `id`.
    fn get_streamer_by_id(&self, id: i64) -> (outcome: Result<StudioEntity, RepositoryError>)
        ensures
            well_formed(self.streamers()),
            match outcome {
                Ok(template) => found(self.streamers(), id) == Some(template@),
                Err(RepositoryError::NotFound) => found(self.streamers(), id) is None,
                Err(RepositoryError::PersistenceError(_)) => true,
            },
    ;
}

} // verus!
