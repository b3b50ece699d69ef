//! The error type's accessors.

use workspaces::Error;
use workspaces::ErrorKind;

#[test]
fn error_without_cause() {
    let e = Error::new(ErrorKind::InitFailure, "no ports free".to_owned());
    assert_eq!(e.kind(), ErrorKind::InitFailure);
    assert_eq!(e.message().as_str(), "no ports free");
    assert!(e.cause().is_none());
}

#[test]
fn error_with_cause() {
    let e = Error::full(
        ErrorKind::Io,
        "failed to unlock lockfile for port 3030".to_owned(),
        "permission denied".to_owned(),
    );
    assert_eq!(e.kind(), ErrorKind::Io);
    assert_eq!(e.message().as_str(), "failed to unlock lockfile for port 3030");
    assert_eq!(e.cause().as_deref(), Some("permission denied"));
}
