use doc_index_updater::error::{reply_status, to_redis_error, MyRedisError, StoreError, StoreErrorKind};
use doc_index_updater::status::JobStatus;

fn failure(kind: StoreErrorKind) -> StoreError {
    StoreError { kind, detail: "cause".to_string() }
}

#[test]
fn bad_credentials_are_an_authentication_error() {
    let e = MyRedisError::from(failure(StoreErrorKind::AuthenticationFailed));
    assert!(matches!(e, MyRedisError::Auth(ref s) if s.detail == "cause"));
    let r = reply_status(Err(failure(StoreErrorKind::AuthenticationFailed)));
    assert!(matches!(r, Err(MyRedisError::Auth(_))));
}

#[test]
fn type_error_is_incompatible_type() {
    let e = MyRedisError::from(failure(StoreErrorKind::TypeError));
    assert!(matches!(e, MyRedisError::IncompatibleType(_)));
}

#[test]
fn io_error_is_transport() {
    let r = reply_status(Err(failure(StoreErrorKind::IoError)));
    assert!(matches!(r, Err(MyRedisError::Transport(_))));
}

#[test]
fn other_failure_is_kept_with_its_cause() {
    let r = reply_status(Err(failure(StoreErrorKind::Other)));
    assert!(matches!(r, Err(MyRedisError::Other(ref s)) if s.kind == StoreErrorKind::Other && s.detail == "cause"));
}

#[test]
fn to_redis_error_keeps_the_text() {
    let e = to_redis_error("Status unknown: Bedro".to_string());
    assert_eq!(e.kind, StoreErrorKind::TypeError);
    assert_eq!(e.detail, "Status unknown: Bedro");
}

#[test]
fn reply_missing_or_corrupt_is_incompatible_type() {
    assert!(matches!(reply_status(Ok(None)), Err(MyRedisError::IncompatibleType(_))));
    let r = reply_status(Ok(Some("Bedro".to_string())));
    assert!(matches!(r, Err(MyRedisError::IncompatibleType(ref s)) if s.detail == "Status unknown: Bedro"));
}

#[test]
fn reply_with_a_status_is_read() {
    assert_eq!(reply_status(Ok(Some("Done".to_string()))).unwrap(), JobStatus::Done);
}
