//! How a repository operation fails.

use vstd::prelude::*;

verus! {

/// The failure of a repository operation.
///
/// Nothing is retried and nothing is papered over: the caller gets the
/// failure as it happened and decides what to do about it.
#[derive(Debug, PartialEq, Eq)]
pub enum RepositoryError {
    /// No row has the identity that the operation named. Expected now and
    /// then: the identity may be stale, or another caller deleted the row.
    NotFound,
    /// The store itself failed: it could not be reached, refused the row, or
    /// gave up. The text is the store's own account.
    PersistenceError(String),
}

} // verus!
