//! Builder accumulation and resolution.

use workspaces::ErrorKind;
use workspaces::NetworkBuilder;
use workspaces::NetworkKind;
use workspaces::Resolution;
use workspaces::ValidatorKey;

#[test]
fn builder_with_both_overrides_connects() {
    let resolution = NetworkBuilder::new(NetworkKind::Sandbox, "sandbox")
        .rpc_addr("http://localhost:1234")
        .validator_key(ValidatorKey::HomeDir("/tmp/sandbox-home".to_owned()))
        .resolve();
    let server = match resolution {
        Ok(Resolution::Ready(server)) => server,
        Ok(Resolution::SpawnNeeded) => panic!("expected a ready handle, got a spawn decision"),
        Err(e) => panic!("expected a ready handle, got an error: {}", e.message()),
    };
    assert_eq!(server.rpc_port(), Some(1234));
    assert_eq!(server.net_port(), None);
    assert_eq!(server.rpc_addr(), "http://localhost:1234/");
    match server.validator_key() {
        ValidatorKey::HomeDir(home) => assert_eq!(home.as_str(), "/tmp/sandbox-home"),
        other => panic!("unexpected credential {:?}", other),
    }
}

#[test]
fn builder_without_overrides_decides_to_spawn() {
    let resolution = NetworkBuilder::new(NetworkKind::Sandbox, "sandbox").resolve();
    match resolution {
        Ok(Resolution::SpawnNeeded) => {}
        Ok(Resolution::Ready(_)) => panic!("expected a spawn decision, got a ready handle"),
        Err(e) => panic!("expected a spawn decision, got an error: {}", e.message()),
    }
}

#[test]
fn builder_with_malformed_endpoint_fails() {
    let err = NetworkBuilder::new(NetworkKind::Sandbox, "sandbox")
        .rpc_addr("::not-a-url::")
        .validator_key(ValidatorKey::HomeDir("/tmp/sandbox-home".to_owned()))
        .resolve()
        .err().expect("expected an error");
    assert_eq!(err.kind(), ErrorKind::InitFailure);
    assert!(err.message().contains("::not-a-url::"));
}

#[test]
fn builder_with_endpoint_but_no_credential_fails() {
    let err = NetworkBuilder::new(NetworkKind::Sandbox, "sandbox")
        .rpc_addr("http://localhost:1234")
        .resolve()
        .err().expect("expected an error");
    assert_eq!(err.kind(), ErrorKind::InitFailure);
    assert_eq!(
        err.message().as_str(),
        "rpc_addr and validator_key must be set together for sandbox"
    );
}

#[test]
fn builder_with_credential_but_no_endpoint_fails() {
    let err = NetworkBuilder::new(NetworkKind::Sandbox, "sandbox")
        .validator_key(ValidatorKey::HomeDir("/tmp/sandbox-home".to_owned()))
        .resolve()
        .err().expect("expected an error");
    assert_eq!(err.kind(), ErrorKind::InitFailure);
    assert_eq!(
        err.message().as_str(),
        "rpc_addr and validator_key must be set together for sandbox"
    );
}

#[test]
fn builder_for_a_foreign_network_fails() {
    let err = NetworkBuilder::new(NetworkKind::Testnet, "testnet").resolve().err().expect("expected an error");
    assert_eq!(err.kind(), ErrorKind::InitFailure);
    assert_eq!(err.message().as_str(), "only the sandbox network is constructed here");
}
