//! The log-suppression policy and the node's command line.

use workspaces::init_args;
use workspaces::run_args;
use workspaces::run_env_pairs;
use workspaces::sandbox_log_override;

#[test]
fn logs_suppressed_when_variable_unset() {
    let forced = sandbox_log_override(&None).unwrap();
    assert_eq!(forced.as_str(), "near=error,stats=error,network=error");
}

#[test]
fn logs_suppressed_when_variable_is_zero() {
    let forced = sandbox_log_override(&Some("0".to_owned())).unwrap();
    assert_eq!(forced.as_str(), "near=error,stats=error,network=error");
}

#[test]
fn logs_untouched_when_variable_is_anything_else() {
    assert!(sandbox_log_override(&Some("1".to_owned())).is_none());
    assert!(sandbox_log_override(&Some("near=debug".to_owned())).is_none());
}

#[test]
fn run_env_forwards_the_log_filter() {
    let pairs = run_env_pairs(&Some("near=error,stats=error,network=error".to_owned()));
    assert_eq!(pairs.len(), 1);
    assert_eq!(pairs[0].0.as_str(), "RUST_LOG");
    assert_eq!(pairs[0].1.as_str(), "near=error,stats=error,network=error");
    assert!(run_env_pairs(&None).is_empty());
}

#[test]
fn node_command_lines_are_exact() {
    let home = "/tmp/sandbox-home".to_owned();
    let init = init_args(&home);
    let init_strs: Vec<&str> = init.iter().map(|s| s.as_str()).collect();
    assert_eq!(init_strs, ["--home", "/tmp/sandbox-home", "init", "--fast"]);

    let run = run_args(&home, 3030, 3031);
    let run_strs: Vec<&str> = run.iter().map(|s| s.as_str()).collect();
    assert_eq!(
        run_strs,
        [
            "--home",
            "/tmp/sandbox-home",
            "run",
            "--rpc-addr",
            "0.0.0.0:3030",
            "--network-addr",
            "0.0.0.0:3031"
        ]
    );
}
