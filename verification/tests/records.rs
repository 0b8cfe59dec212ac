use upload_store::{MemoryRecords, RepositoryError, UploadRecords, UploadRecordsRepository};

fn record(identity: &str, status: &str) -> UploadRecords {
    UploadRecords { id: 0, identity: identity.to_string(), status: status.to_string() }
}

#[test]
fn record_is_created_read_and_deleted() {
    let mut store = MemoryRecords::new();
    let stored = store.create(record("job-abc", "pending")).unwrap();
    assert_eq!(stored, UploadRecords { id: 1, ..record("job-abc", "pending") });
    assert_eq!(store.get_by_id(stored.id), Ok(stored.clone()));
    assert_eq!(store.delete(stored.id), Ok(()));
    assert_eq!(store.get_by_id(stored.id), Err(RepositoryError::NotFound));
}

#[test]
fn new_record_store_is_empty() {
    let store = MemoryRecords::new();
    assert_eq!(store.get_all(), Ok(vec![]));
    assert_eq!(store.get_by_id(1), Err(RepositoryError::NotFound));
}

#[test]
fn record_identities_count_up_from_one() {
    let mut store = MemoryRecords::new();
    assert_eq!(store.create(record("a", "pending")).unwrap().id, 1);
    assert_eq!(store.create(record("b", "pending")).unwrap().id, 2);
}

#[test]
fn record_create_overwrites_the_identity_that_came_in() {
    let mut store = MemoryRecords::new();
    let stored = store.create(UploadRecords { id: -4, ..record("a", "success") }).unwrap();
    assert_eq!(stored.id, 1);
    assert_eq!(stored.identity, "a");
    assert_eq!(stored.status, "success");
    assert_eq!(store.get_by_id(-4), Err(RepositoryError::NotFound));
}

#[test]
fn all_records_are_listed() {
    let mut store = MemoryRecords::new();
    let first = store.create(record("a", "pending")).unwrap();
    let second = store.create(record("b", "failed")).unwrap();
    let third = store.create(record("a", "success")).unwrap();
    assert_eq!(store.get_all(), Ok(vec![first, second, third]));
}

#[test]
fn record_delete_takes_out_one_row_only() {
    let mut store = MemoryRecords::new();
    let first = store.create(record("a", "pending")).unwrap();
    let second = store.create(record("b", "pending")).unwrap();
    assert_eq!(store.delete(first.id), Ok(()));
    assert_eq!(store.get_all(), Ok(vec![second.clone()]));
    assert_eq!(store.get_by_id(second.id), Ok(second));
}

#[test]
fn record_delete_of_a_missing_row_is_not_found() {
    let mut store = MemoryRecords::new();
    assert_eq!(store.delete(1), Err(RepositoryError::NotFound));
    let stored = store.create(record("a", "pending")).unwrap();
    assert_eq!(store.delete(stored.id + 1), Err(RepositoryError::NotFound));
    assert_eq!(store.get_all(), Ok(vec![stored]));
}

#[test]
fn status_changes_by_delete_and_create() {
    let mut store = MemoryRecords::new();
    let pending = store.create(record("job-1", "pending")).unwrap();
    store.delete(pending.id).unwrap();
    let done = store.create(record("job-1", "success")).unwrap();
    assert_eq!(done.id, 2);
    assert_eq!(store.get_all(), Ok(vec![UploadRecords { id: 2, ..record("job-1", "success") }]));
}

#[test]
fn record_store_can_start_after_a_given_identity() {
    let mut store = MemoryRecords::starting_after(9).unwrap();
    assert_eq!(store.create(record("a", "pending")).unwrap().id, 10);
    assert!(MemoryRecords::starting_after(-1).is_none());
}

#[test]
fn record_create_fails_when_no_identity_is_left() {
    let mut store = MemoryRecords::starting_after(i64::MAX).unwrap();
    let outcome = store.create(record("a", "pending"));
    assert!(matches!(outcome, Err(RepositoryError::PersistenceError(_))));
    assert_eq!(store.get_all(), Ok(vec![]));
}

#[test]
fn record_clone_is_equal_in_every_field() {
    let stored = UploadRecords { id: 8, ..record("a", "pending") };
    assert_eq!(stored.clone(), stored);
}
