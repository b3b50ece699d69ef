//! Finishing home-directory initialization from the init subprocess's
//! outcome.

use workspaces::ErrorKind;
use workspaces::finish_init;

#[test]
fn successful_init_yields_the_home_directory() {
    let home = finish_init("/tmp/sandbox-home".to_owned(), Ok(true)).unwrap();
    assert_eq!(home, "/tmp/sandbox-home");
}

#[test]
fn abnormal_init_exit_is_a_fatal_init_failure() {
    let err = finish_init("/tmp/sandbox-home".to_owned(), Ok(false))
        .err()
        .expect("expected an error");
    assert_eq!(err.kind(), ErrorKind::InitFailure);
    assert_eq!(err.message().as_str(), "sandbox init exited abnormally");
    assert!(err.cause().is_none());
}

#[test]
fn unspawnable_init_is_an_init_failure_wrapping_the_cause() {
    let err = finish_init("/tmp/sandbox-home".to_owned(), Err("no such binary".to_owned()))
        .err()
        .expect("expected an error");
    assert_eq!(err.kind(), ErrorKind::InitFailure);
    assert_eq!(err.message().as_str(), "failed to init sandbox");
    assert_eq!(err.cause().as_deref(), Some("no such binary"));
}
