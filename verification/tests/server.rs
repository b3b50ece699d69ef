//! Server lifecycle behaviour: connecting, assembling a spawned server,
//! releasing locks, and tearing down.

use workspaces::ErrorKind;
use workspaces::SandboxServer;
use workspaces::ValidatorKey;
use workspaces::acquire_unused_port;

fn lock_path(port: u16) -> String {
    let dir = tempfile::env::temp_dir();
    let path = dir.join(format!("near-sandbox-port{}.lock", port));
    path.to_str().unwrap().to_owned()
}

fn test_key() -> ValidatorKey {
    ValidatorKey::Known("test.near".to_owned(), "ed25519:fake-test-key".to_owned())
}

#[test]
fn connect_rejects_a_malformed_url() {
    let err = SandboxServer::connect("not a url".to_owned(), test_key()).err().expect("expected an error");
    assert_eq!(err.kind(), ErrorKind::InitFailure);
    assert!(err.message().contains("not a url"));
    assert_eq!(err.message().as_str(), "Invalid rpc_url=not a url");
}

#[test]
fn connect_keeps_endpoint_port_and_credential() {
    let server = SandboxServer::connect("http://localhost:3030".to_owned(), test_key()).unwrap();
    assert_eq!(server.rpc_port(), Some(3030));
    assert_eq!(server.net_port(), None);
    // The URL parser normalizes the endpoint with a trailing slash.
    assert_eq!(server.rpc_addr(), "http://localhost:3030/");
    match server.validator_key() {
        ValidatorKey::Known(account, _) => assert_eq!(account.as_str(), "test.near"),
        other => panic!("unexpected credential {:?}", other),
    }
}

#[test]
fn connect_endpoint_may_omit_the_port() {
    let server = SandboxServer::connect("http://localhost".to_owned(), test_key()).unwrap();
    assert_eq!(server.rpc_port(), None);
    assert_eq!(server.rpc_addr(), "http://localhost/");
}

#[test]
fn connect_teardown_is_a_no_op() {
    let mut server =
        SandboxServer::connect("http://localhost:3030".to_owned(), test_key()).unwrap();
    // No process is owned on the connect path, so termination is a no-op
    // and nothing fails; the endpoint is untouched.
    assert!(server.process_id().is_none());
    server.terminate().unwrap();
    server.terminate().unwrap();
    assert_eq!(server.rpc_addr(), "http://localhost:3030/");
    // No locks are held on the connect path either.
    server.unlock_lockfiles().unwrap();
}

#[test]
fn failed_spawn_leaves_zero_held_locks() {
    let (rpc_port, rpc_lock) = acquire_unused_port().unwrap();
    let (net_port, net_lock) = acquire_unused_port().unwrap();

    let err = SandboxServer::finish_spawn(
        "/tmp/unused-home".to_owned(),
        rpc_port,
        rpc_lock,
        net_port,
        net_lock,
        Err("process table full".to_owned()),
    )
    .err().expect("expected an error");
    assert_eq!(err.kind(), ErrorKind::RunFailure);
    assert_eq!(err.message().as_str(), "failed to run the sandbox node");
    assert_eq!(err.cause().as_deref(), Some("process table full"));

    // Both port locks were released before the error propagated: a fresh
    // attempt on each lock file succeeds immediately.
    for port in [rpc_port, net_port] {
        let mut probe = fslock::LockFile::open(lock_path(port).as_str()).unwrap();
        assert!(probe.try_lock().unwrap());
        probe.unlock().unwrap();
    }
}

#[test]
fn spawned_server_tears_down_and_frees_its_ports() {
    let (rpc_port, rpc_lock) = acquire_unused_port().unwrap();
    let (net_port, net_lock) = acquire_unused_port().unwrap();

    // A stand-in child process takes the place of the node.
    let child = async_process::Command::new("sleep").arg("600").spawn().unwrap();

    let mut server = SandboxServer::finish_spawn(
        "/tmp/unused-home".to_owned(),
        rpc_port,
        rpc_lock,
        net_port,
        net_lock,
        Ok(child),
    )
    .unwrap();

    assert_eq!(server.rpc_port(), Some(rpc_port));
    assert_eq!(server.net_port(), Some(net_port));
    assert_eq!(server.rpc_addr(), format!("http://localhost:{}", rpc_port));
    match server.validator_key() {
        ValidatorKey::HomeDir(home) => assert_eq!(home.as_str(), "/tmp/unused-home"),
        other => panic!("unexpected credential {:?}", other),
    }

    // While the server holds its reservations, both lock files are
    // contended.
    for port in [rpc_port, net_port] {
        let mut probe = fslock::LockFile::open(lock_path(port).as_str()).unwrap();
        assert!(!probe.try_lock().unwrap());
    }

    server.unlock_lockfiles().unwrap();
    // Unlocking twice is a no-op.
    server.unlock_lockfiles().unwrap();

    // Both previously locked ports are immediately re-acquirable.
    for port in [rpc_port, net_port] {
        let mut probe = fslock::LockFile::open(lock_path(port).as_str()).unwrap();
        assert!(probe.try_lock().unwrap());
        probe.unlock().unwrap();
    }

    // Teardown terminates the owned child.
    assert!(server.process_id().is_some());
    server.terminate().unwrap();
    assert!(server.process_id().is_none());
    // A second teardown finds no process and is a no-op.
    server.terminate().unwrap();
}
