//! Port reservation behaviour, exercised against the real lock files.

use workspaces::acquire_unused_port;

fn lock_path(port: u16) -> String {
    let dir = tempfile::env::temp_dir();
    let path = dir.join(format!("near-sandbox-port{}.lock", port));
    path.to_str().unwrap().to_owned()
}

#[test]
fn acquired_port_lock_is_held_and_contended() {
    let (port, mut lock) = acquire_unused_port().unwrap();
    assert!(lock.held());
    assert_eq!(lock.port(), port);

    // While the reservation holds the lock, a direct attempt on the same
    // lock file reports contention.
    let mut probe = fslock::LockFile::open(lock_path(port).as_str()).unwrap();
    assert!(!probe.try_lock().unwrap());

    // A second acquisition while the first lock is still held resamples
    // and never returns the same port.
    let (port2, mut lock2) = acquire_unused_port().unwrap();
    assert_ne!(port, port2);

    lock.release().unwrap();
    lock2.release().unwrap();
}

#[test]
fn release_twice_is_a_quiet_no_op() {
    let (port, mut lock) = acquire_unused_port().unwrap();
    assert!(lock.held());
    lock.release().unwrap();
    assert!(!lock.held());
    // The second release finds the handle already consumed: no panic, no
    // error.
    lock.release().unwrap();
    assert!(!lock.held());
    assert_eq!(lock.port(), port);

    // After release the port's lock file is immediately re-acquirable.
    let mut probe = fslock::LockFile::open(lock_path(port).as_str()).unwrap();
    assert!(probe.try_lock().unwrap());
    probe.unlock().unwrap();
}
