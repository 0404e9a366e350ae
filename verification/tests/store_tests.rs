use kvaccess::backend::Backend;
use kvaccess::mock::MockBackend;
use kvaccess::mock::MockError;
use kvaccess::store::Store;

#[test]
fn read_wraps_backend_session() {
    let store = Store::new(MockBackend::new(Ok(7), Ok(1)));
    let handle = store.read().ok().unwrap();
    assert_eq!(*handle.session(), 7);
}

#[test]
fn write_wraps_backend_session() {
    let mut store = Store::new(MockBackend::new(Ok(1), Ok(9)));
    let handle = store.write().ok().unwrap();
    assert_eq!(*handle.session(), 9);
}

#[test]
fn read_succeeds_iff_backend_read_succeeds() {
    let granting = MockBackend::new(Ok(42), Ok(1));
    let direct = granting.read();
    let store = Store::new(MockBackend::new(Ok(42), Ok(1)));
    let through_store = store.read().ok().map(|h| h.into_session());
    assert_eq!(direct.ok(), through_store);
    assert_eq!(through_store, Some(42));

    let refusing = MockBackend::new(Err(MockError::SnapshotFailed), Ok(1));
    assert!(refusing.read().is_err());
    let store = Store::new(MockBackend::new(Err(MockError::SnapshotFailed), Ok(1)));
    assert!(store.read().is_err());
}

#[test]
fn write_succeeds_iff_backend_write_succeeds() {
    let mut granting = MockBackend::new(Ok(1), Ok(11));
    let direct = granting.write();
    let mut store = Store::new(MockBackend::new(Ok(1), Ok(11)));
    let through_store = store.write().ok().map(|h| h.into_session());
    assert_eq!(direct.ok(), through_store);
    assert_eq!(through_store, Some(11));

    let mut refusing = MockBackend::new(Ok(1), Err(MockError::BackendUnavailable));
    assert!(refusing.write().is_err());
    let mut store = Store::new(MockBackend::new(Ok(1), Err(MockError::BackendUnavailable)));
    assert!(store.write().is_err());
}

#[test]
fn read_propagates_exact_error() {
    let store = Store::new(MockBackend::new(Err(MockError::SnapshotFailed), Ok(1)));
    assert_eq!(store.read().err().unwrap(), MockError::SnapshotFailed);

    let store = Store::new(MockBackend::new(Err(MockError::BackendUnavailable), Ok(1)));
    assert_eq!(store.read().err().unwrap(), MockError::BackendUnavailable);
}

#[test]
fn write_propagates_backend_unavailable() {
    let mut store = Store::new(MockBackend::new(Ok(1), Err(MockError::BackendUnavailable)));
    assert_eq!(store.write().err().unwrap(), MockError::BackendUnavailable);
}

#[test]
fn read_handles_coexist() {
    let store = Store::new(MockBackend::new(Ok(3), Ok(1)));
    let first = store.read().ok().unwrap();
    let second = store.read().ok().unwrap();
    let third = store.read().ok().unwrap();
    assert_eq!(*first.session(), 3);
    assert_eq!(*second.session(), 3);
    assert_eq!(*third.session(), 3);
}

#[test]
fn handles_release_their_sessions() {
    let mut store = Store::new(MockBackend::new(Ok(5), Ok(6)));
    let read_session = store.read().ok().unwrap().into_session();
    assert_eq!(read_session, 5);
    let write_session = store.write().ok().unwrap().into_session();
    assert_eq!(write_session, 6);
}

#[test]
fn store_reusable_after_write_handle_dropped() {
    let mut store = Store::new(MockBackend::new(Ok(2), Ok(8)));
    {
        let writer = store.write().ok().unwrap();
        assert_eq!(*writer.session(), 8);
    }
    let reader = store.read().ok().unwrap();
    assert_eq!(*reader.session(), 2);
    drop(reader);
    let writer = store.write().ok().unwrap();
    assert_eq!(*writer.session(), 8);
}

#[test]
fn failed_write_leaves_backend_usable() {
    let mut store = Store::new(MockBackend::new(Ok(4), Err(MockError::BackendUnavailable)));
    assert!(store.write().is_err());
    assert_eq!(*store.read().ok().unwrap().session(), 4);
    assert_eq!(store.write().err().unwrap(), MockError::BackendUnavailable);
}

#[test]
fn mock_backend_answers_as_configured() {
    let mut backend = MockBackend::new(Ok(13), Err(MockError::SnapshotFailed));
    assert_eq!(backend.read(), Ok(13));
    assert_eq!(backend.read(), Ok(13));
    assert_eq!(backend.write(), Err(MockError::SnapshotFailed));
    assert_eq!(backend.read(), Ok(13));
}
