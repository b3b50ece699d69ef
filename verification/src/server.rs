//! Supervision of the sandbox node process.
//!
//! A [`SandboxServer`] owns the RPC endpoint of one node, the credential
//! needed to act as its validator, and — on the spawn path — the two port
//! reservations and the child-process handle of a node launched by this
//! crate. Teardown terminates an owned process and releases the port
//! reservations however the caller's session ends.

use vstd::prelude::*;

use crate::error::Error;
use crate::error::ErrorKind;
use crate::port::PortLock;
use crate::port::PortLockView;
use crate::port::acquire_unused_port;
use crate::port::lockfile_failed_text;
use crate::port::no_ports_text;
use crate::text::dec_digits;
use crate::text::decimal_string;
use crate::text::localhost_url;
use crate::text::localhost_url_text;

verus! {

#[verifier::external_type_specification]
#[verifier::external_body]
pub struct ExChild(async_process::Child);

/// Relies on tempfile::tempdir and tempfile::TempDir::keep: creates a
/// fresh, uniquely named directory under the OS temporary directory and
/// keeps it past the handle's drop, so that ownership of cleanup passes to
/// the caller.
#[verifier::external_body]
fn create_home_dir() -> (r: Result<String, String>) {
    match tempfile::tempdir() {
        Ok(dir) => Ok(dir.keep().to_string_lossy().into_owned()),
        Err(e) => Err(format!("{}", e)),
    }
}

/// Relies on near_sandbox_utils::ensure_sandbox_bin: the path of the
/// sandbox node binary, installing the binary first when it is not yet
/// present on this host. The callee may download the binary over the
/// network, and it can panic on environmental failure — an unwritable
/// install directory, a non-UTF-8 path — which no precondition on this
/// wrapper could exclude.
#[verifier::external_body]
fn sandbox_bin_path() -> (r: Result<String, String>) {
    match near_sandbox_utils::ensure_sandbox_bin() {
        Ok(p) => Ok(p.to_string_lossy().into_owned()),
        Err(e) => Err(format!("{:?}", e)),
    }
}

/// Relies on async_process::Command and async_process::Child::output:
/// spawns the program with the given arguments and waits for it to finish;
/// `Ok` carries whether it exited successfully.
#[verifier::external_body]
fn run_command_and_wait(program: &String, args: &Vec<String>) -> (r: Result<bool, String>) {
    let child = match async_process::Command::new(program.as_str()).args(args).spawn() {
        Ok(c) => c,
        Err(e) => return Err(format!("{}", e)),
    };
    match futures_lite::future::block_on(child.output()) {
        Ok(out) => Ok(out.status.success()),
        Err(e) => Err(format!("{}", e)),
    }
}

/// Relies on async_process::Command: spawns the program with the given
/// arguments and extra environment entries, without waiting for it.
#[verifier::external_body]
fn spawn_command(
    program: &String,
    args: &Vec<String>,
    envs: &Vec<(String, String)>,
) -> (r: Result<async_process::Child, String>) {
    let mut cmd = async_process::Command::new(program.as_str());
    cmd.args(args);
    cmd.envs(envs.clone());
    match cmd.spawn() {
        Ok(c) => Ok(c),
        Err(e) => Err(format!("{}", e)),
    }
}

/// Relies on async_process::Child::id: the OS process id of the child.
#[verifier::external_body]
fn child_id(child: &async_process::Child) -> (r: u32) {
    child.id()
}

/// Relies on async_process::Child::kill: forces the child process to exit.
#[verifier::external_body]
fn kill_child(child: &mut async_process::Child) -> (r: Result<(), String>) {
    match child.kill() {
        Ok(()) => Ok(()),
        Err(e) => Err(format!("{}", e)),
    }
}

/// Whether a string parses as a well-formed URL. Relied on through
/// [`parse_url_parts`]; the outcome depends on the text alone.
pub uninterp spec fn url_parse_ok(s: Seq<char>) -> bool;

/// The normalized text of a well-formed URL. Relied on through
/// [`parse_url_parts`]; it depends on the text alone.
pub uninterp spec fn url_normalized(s: Seq<char>) -> Seq<char>;

/// The explicit port of a well-formed URL, absent when the URL names none.
/// Relied on through [`parse_url_parts`]; it depends on the text alone.
pub uninterp spec fn url_port(s: Seq<char>) -> Option<u16>;

/// Relies on url::Url::parse, url::Url::as_str and url::Url::port: whether
/// the text parses as a URL, the parsed URL's normalized text, and its
/// explicit port are all functions of the input text alone. `Err` carries
/// the parser's description of the flaw.
#[verifier::external_body]
fn parse_url_parts(s: &String) -> (r: Result<(String, Option<u16>), String>)
    ensures
        r is Ok <==> url_parse_ok(s@),
        r matches Ok(p) ==> p.0@ == url_normalized(s@) && p.1 == url_port(s@),
{
    match url::Url::parse(s.as_str()) {
        Ok(u) => {
            let port = u.port();
            Ok((u.as_str().to_owned(), port))
        },
        Err(e) => Err(format!("{}", e)),
    }
}

/// The credential the node uses to sign blocks as validator: either read
/// from the node's home directory at use time, or supplied directly as an
/// account id and secret key.
#[derive(Debug)]
pub enum ValidatorKey {
    /// The credential sits in the node's home directory.
    HomeDir(String),
    /// The credential is known directly.
    Known(String, String),
}

/// What a [`ValidatorKey`] is, to contracts.
pub enum ValidatorKeyView {
    HomeDir(Seq<char>),
    Known(Seq<char>, Seq<char>),
}

impl View for ValidatorKey {
    type V = ValidatorKeyView;

    open spec fn view(&self) -> ValidatorKeyView {
        match self {
            ValidatorKey::HomeDir(p) => ValidatorKeyView::HomeDir(p@),
            ValidatorKey::Known(a, k) => ValidatorKeyView::Known(a@, k@),
        }
    }
}

/// The value forced into the spawned node's log filter when sandbox logs
/// are suppressed.
pub open spec fn suppressed_log_text() -> Seq<char> {
    "near=error,stats=error,network=error"@
}

/// Decides the log-suppression policy. Given the current value of the
/// `NEAR_ENABLE_SANDBOX_LOG` environment variable (`None` when unset),
/// returns the value the `NEAR_SANDBOX_LOG` environment variable must be
/// forced to, or `None` to leave logging untouched: logs are suppressed
/// exactly when the variable is unset or `"0"`.
pub fn sandbox_log_override(enable: &Option<String>) -> (r: Option<String>)
    ensures
        match enable {
            None => r matches Some(v) && v@ == suppressed_log_text(),
            Some(val) => if val@ == "0"@ {
                r matches Some(v) && v@ == suppressed_log_text()
            } else {
                r is None
            },
        },
{
    let suppress: bool = match enable {
        None => true,
        Some(val) => {
            let zero = String::from_str("0");
            val.eq(&zero)
        },
    };
    if suppress {
        Some(String::from_str("near=error,stats=error,network=error"))
    } else {
        None
    }
}

/// The environment entries handed to the spawned node beyond the inherited
/// environment: the node reads its log filter from `RUST_LOG`, so the value
/// of `NEAR_SANDBOX_LOG`, when one is set, is forwarded under that name.
pub fn run_env_pairs(sandbox_log: &Option<String>) -> (r: Vec<(String, String)>)
    ensures
        match sandbox_log {
            None => r@.len() == 0,
            Some(v) => r@.len() == 1 && r@[0].0@ == "RUST_LOG"@ && r@[0].1@ == v@,
        },
{
    let mut r: Vec<(String, String)> = Vec::new();
    match sandbox_log {
        None => {
        },
        Some(v) => {
            r.push((String::from_str("RUST_LOG"), v.clone()));
        },
    }
    r
}

/// The arguments of the node's "init" subcommand, pointed at `home`.
pub fn init_args(home: &String) -> (r: Vec<String>)
    ensures
        r@.len() == 4,
        r@[0]@ == "--home"@,
        r@[1]@ == home@,
        r@[2]@ == "init"@,
        r@[3]@ == "--fast"@,
{
    let mut r: Vec<String> = Vec::new();
    r.push(String::from_str("--home"));
    r.push(home.clone());
    r.push(String::from_str("init"));
    r.push(String::from_str("--fast"));
    r
}

/// The text of a bind address on every local interface.
pub open spec fn local_addr_text(port: u16) -> Seq<char> {
    "0.0.0.0:"@ + dec_digits(port as nat)
}

fn local_addr(port: u16) -> (r: String)
    ensures
        r@ == local_addr_text(port),
{
    let mut r = String::from_str("0.0.0.0:");
    let digits = decimal_string(port);
    r.append(digits.as_str());
    proof {
        assert(r@ =~= local_addr_text(port));
    }
    r
}

/// The arguments of the node's "run" subcommand: pointed at `home`, with
/// the RPC interface bound to `rpc_port` and node-to-node networking bound
/// to `net_port`.
pub fn run_args(home: &String, rpc_port: u16, net_port: u16) -> (r: Vec<String>)
    ensures
        r@.len() == 7,
        r@[0]@ == "--home"@,
        r@[1]@ == home@,
        r@[2]@ == "run"@,
        r@[3]@ == "--rpc-addr"@,
        r@[4]@ == local_addr_text(rpc_port),
        r@[5]@ == "--network-addr"@,
        r@[6]@ == local_addr_text(net_port),
{
    let mut r: Vec<String> = Vec::new();
    r.push(String::from_str("--home"));
    r.push(home.clone());
    r.push(String::from_str("run"));
    r.push(String::from_str("--rpc-addr"));
    r.push(local_addr(rpc_port));
    r.push(String::from_str("--network-addr"));
    r.push(local_addr(net_port));
    r
}

/// The message of the error raised when no home directory can be created.
pub open spec fn home_dir_failed_text() -> Seq<char> {
    "failed to create home directory"@
}

/// The message of the error raised when the sandbox binary cannot be
/// located or installed.
pub open spec fn bin_missing_text() -> Seq<char> {
    "failed to locate the sandbox binary"@
}

/// The message of the error raised when the init subprocess cannot be
/// spawned or awaited.
pub open spec fn init_failed_text() -> Seq<char> {
    "failed to init sandbox"@
}

/// The message of the error raised when the init subprocess ran but exited
/// abnormally.
pub open spec fn init_abnormal_text() -> Seq<char> {
    "sandbox init exited abnormally"@
}

/// Finishes home-directory initialization once the init subprocess's
/// outcome is known: `Ok(true)` — it ran and exited successfully — yields
/// the home directory; `Ok(false)` — it ran but exited abnormally — is an
/// [`ErrorKind::InitFailure`] without an underlying cause; `Err` — it
/// could not be spawned or awaited — is an [`ErrorKind::InitFailure`]
/// wrapping the cause.
pub fn finish_init(home_dir: String, outcome: Result<bool, String>) -> (r: Result<String, Error>)
    ensures
        r is Ok <==> outcome == Ok::<bool, String>(true),
        r matches Ok(h) ==> h@ == home_dir@,
        outcome == Ok::<bool, String>(false) ==> (r matches Err(e) && e.spec_kind()
            == ErrorKind::InitFailure && e.spec_message() == init_abnormal_text() && e.spec_cause()
            is None),
        outcome matches Err(t) ==> (r matches Err(e) && e.spec_kind() == ErrorKind::InitFailure
            && e.spec_message() == init_failed_text() && e.spec_cause() == Some(t@)),
        r matches Err(e) ==> e.spec_kind() == ErrorKind::InitFailure && (e.spec_message()
            == init_failed_text() || e.spec_message() == init_abnormal_text()),
{
    match outcome {
        Ok(true) => Ok(home_dir),
        Ok(false) => Err(
            Error::new(ErrorKind::InitFailure, String::from_str("sandbox init exited abnormally")),
        ),
        Err(cause) => Err(
            Error::full(ErrorKind::InitFailure, String::from_str("failed to init sandbox"), cause),
        ),
    }
}

/// Creates a fresh home directory for a node and runs the node's "init"
/// subcommand on it, awaiting completion.
///
/// Every failure is an [`ErrorKind::InitFailure`]: no directory could be
/// created, the sandbox binary could not be located, or the init
/// subprocess could not be spawned or exited abnormally. The directory is
/// not cleaned up on a failure after its creation: ownership of cleanup
/// passes to the caller, who may want to inspect it.
pub fn init_home_dir() -> (r: Result<String, Error>)
    ensures
        r matches Err(e) ==> e.spec_kind() == ErrorKind::InitFailure && (e.spec_message()
            == home_dir_failed_text() || e.spec_message() == bin_missing_text() || e.spec_message()
            == init_failed_text() || e.spec_message() == init_abnormal_text()),
{
    let home = match create_home_dir() {
        Ok(h) => h,
        Err(cause) => {
            return Err(
                Error::full(
                    ErrorKind::InitFailure,
                    String::from_str("failed to create home directory"),
                    cause,
                ),
            );
        },
    };
    let bin = match sandbox_bin_path() {
        Ok(b) => b,
        Err(cause) => {
            return Err(
                Error::full(
                    ErrorKind::InitFailure,
                    String::from_str("failed to locate the sandbox binary"),
                    cause,
                ),
            );
        },
    };
    let args = init_args(&home);
    let outcome = run_command_and_wait(&bin, &args);
    finish_init(home, outcome)
}

/// The message of the error raised when the endpoint string `s` does not
/// parse as a URL.
pub open spec fn invalid_rpc_text(s: Seq<char>) -> Seq<char> {
    "Invalid rpc_url="@ + s
}

/// The message of the error raised when the node process cannot be
/// launched.
pub open spec fn run_failed_text() -> Seq<char> {
    "failed to run the sandbox node"@
}

/// The message of the error raised when an owned node process cannot be
/// terminated.
pub open spec fn kill_failed_text() -> Seq<char> {
    "failed to terminate the sandbox node"@
}

/// What a [`SandboxServer`] is, to contracts.
pub struct ServerView {
    pub validator_key: ValidatorKeyView,
    pub rpc_addr: Seq<char>,
    pub rpc_port: Option<u16>,
    pub net_port: Option<u16>,
    pub rpc_lock: Option<PortLockView>,
    pub net_lock: Option<PortLockView>,
    pub has_process: bool,
}

/// A handle on one sandbox node: its RPC endpoint, its validator
/// credential, and — only when this crate spawned the node — the secondary
/// node-to-node port, the two port reservations, and the child-process
/// handle.
///
/// If a process handle is present, this object alone is responsible for
/// terminating the process; see [`SandboxServer::terminate`]. Port
/// reservations are released exactly once, by whichever of
/// [`SandboxServer::unlock_lockfiles`] or drop comes first.
pub struct SandboxServer {
    validator_key: ValidatorKey,
    rpc_addr: String,
    rpc_port: Option<u16>,
    net_port: Option<u16>,
    rpc_port_lock: Option<PortLock>,
    net_port_lock: Option<PortLock>,
    process: Option<async_process::Child>,
}

impl View for SandboxServer {
    type V = ServerView;

    closed spec fn view(&self) -> ServerView {
        ServerView {
            validator_key: self.validator_key@,
            rpc_addr: self.rpc_addr@,
            rpc_port: self.rpc_port,
            net_port: self.net_port,
            rpc_lock: match self.rpc_port_lock {
                Some(l) => Some(l@),
                None => None,
            },
            net_lock: match self.net_port_lock {
                Some(l) => Some(l@),
                None => None,
            },
            has_process: self.process is Some,
        }
    }
}

impl SandboxServer {
    /// Connects to a sandbox node that is already running at `rpc_addr`,
    /// with the caller-supplied credential. No ports are reserved and no
    /// process is owned: the process lifecycle belongs to whoever started
    /// the node.
    ///
    /// Fails with [`ErrorKind::InitFailure`], naming the offending string,
    /// exactly when `rpc_addr` does not parse as a well-formed URL.
    pub fn connect(rpc_addr: String, validator_key: ValidatorKey) -> (r: Result<
        SandboxServer,
        Error,
    >)
        ensures
            r is Ok <==> url_parse_ok(rpc_addr@),
            r matches Ok(s) ==> s@ == (ServerView {
                validator_key: validator_key@,
                rpc_addr: url_normalized(rpc_addr@),
                rpc_port: url_port(rpc_addr@),
                net_port: None,
                rpc_lock: None,
                net_lock: None,
                has_process: false,
            }),
            r matches Err(e) ==> e.spec_kind() == ErrorKind::InitFailure && e.spec_message()
                == invalid_rpc_text(rpc_addr@),
    {
        match parse_url_parts(&rpc_addr) {
            Ok((addr, port)) => Ok(
                SandboxServer {
                    validator_key,
                    rpc_addr: addr,
                    rpc_port: port,
                    net_port: None,
                    rpc_port_lock: None,
                    net_port_lock: None,
                    process: None,
                },
            ),
            Err(cause) => {
                let mut message = String::from_str("Invalid rpc_url=");
                message.append(rpc_addr.as_str());
                proof {
                    assert(message@ =~= invalid_rpc_text(rpc_addr@));
                }
                Err(Error::full(ErrorKind::InitFailure, message, cause))
            },
        }
    }

    /// Finishes the spawn path once the launch of the node has been
    /// attempted: on a successful launch, assembles the fully populated
    /// server; on a failed launch, releases both port reservations before
    /// propagating a [`ErrorKind::RunFailure`] error, so that no lock
    /// outlives a failed spawn.
    pub fn finish_spawn(
        home_dir: String,
        rpc_port: u16,
        rpc_lock: PortLock,
        net_port: u16,
        net_lock: PortLock,
        spawned: Result<async_process::Child, String>,
    ) -> (r: Result<SandboxServer, Error>)
        requires
            rpc_lock@.held,
            rpc_lock@.port == rpc_port,
            net_lock@.held,
            net_lock@.port == net_port,
        ensures
            r is Ok <==> spawned is Ok,
            r matches Ok(s) ==> s@ == (ServerView {
                validator_key: ValidatorKeyView::HomeDir(home_dir@),
                rpc_addr: localhost_url_text(rpc_port),
                rpc_port: Some(rpc_port),
                net_port: Some(net_port),
                rpc_lock: Some(PortLockView { port: rpc_port, held: true }),
                net_lock: Some(PortLockView { port: net_port, held: true }),
                has_process: true,
            }),
            r matches Err(e) ==> e.spec_kind() == ErrorKind::RunFailure && e.spec_message()
                == run_failed_text() && (spawned matches Err(t) ==> e.spec_cause() == Some(t@)),
    {
        match spawned {
            Ok(child) => {
                let rpc_addr = localhost_url(rpc_port);
                Ok(
                    SandboxServer {
                        validator_key: ValidatorKey::HomeDir(home_dir),
                        rpc_addr,
                        rpc_port: Some(rpc_port),
                        net_port: Some(net_port),
                        rpc_port_lock: Some(rpc_lock),
                        net_port_lock: Some(net_lock),
                        process: Some(child),
                    },
                )
            },
            Err(cause) => {
                let mut rpc_lock = rpc_lock;
                let mut net_lock = net_lock;
                let _ = rpc_lock.release();
                let _ = net_lock.release();
                Err(Error::full(ErrorKind::RunFailure, String::from_str("failed to run the sandbox node"), cause))
            },
        }
    }

    /// The spawn path. The caller hands in a home directory that
    /// [`init_home_dir`] has initialized and whose configuration has been
    /// patched, and the value of the `NEAR_SANDBOX_LOG` environment
    /// variable after the log-suppression policy ([`sandbox_log_override`])
    /// has been applied — two steps that touch process-wide state this
    /// crate's verified core does not reach. This function then reserves an
    /// RPC port and a node-to-node port, each behind its own lock file,
    /// builds the endpoint URL — which cannot fail, the URL being
    /// well-formed by construction — launches the node bound to both
    /// ports with `sandbox_log` forwarded as its log filter, and returns
    /// the fully populated server. A reservation that fails after the
    /// first succeeded, or a launch that fails after both, releases every
    /// lock already held before propagating its error.
    pub fn run_new_in(home_dir: String, sandbox_log: &Option<String>) -> (r: Result<
        SandboxServer,
        Error,
    >)
        ensures
            r matches Ok(s) ==> s@.validator_key == ValidatorKeyView::HomeDir(home_dir@)
                && s@.has_process && (s@.rpc_port matches Some(p) && s@.rpc_addr
                == localhost_url_text(p) && s@.rpc_lock == Some(PortLockView { port: p, held: true }))
                && (s@.net_port matches Some(q) && s@.net_lock == Some(
                PortLockView { port: q, held: true },
            )),
            r matches Err(e) ==> (e.spec_kind() == ErrorKind::InitFailure && e.spec_message()
                == no_ports_text()) || (e.spec_kind() == ErrorKind::Io && (exists|p: u16|
                e.spec_message() == lockfile_failed_text(p))) || (e.spec_kind()
                == ErrorKind::RunFailure && e.spec_message() == run_failed_text()),
    {
        let (rpc_port, rpc_lock) = match acquire_unused_port() {
            Ok(p) => p,
            Err(e) => {
                return Err(e);
            },
        };
        let (net_port, net_lock) = match acquire_unused_port() {
            Ok(p) => p,
            Err(e) => {
                let mut rpc_lock = rpc_lock;
                let _ = rpc_lock.release();
                return Err(e);
            },
        };
        let bin = match sandbox_bin_path() {
            Ok(b) => b,
            Err(cause) => {
                let mut rpc_lock = rpc_lock;
                let mut net_lock = net_lock;
                let _ = rpc_lock.release();
                let _ = net_lock.release();
                return Err(
                    Error::full(
                        ErrorKind::RunFailure,
                        String::from_str("failed to run the sandbox node"),
                        cause,
                    ),
                );
            },
        };
        let args = run_args(&home_dir, rpc_port, net_port);
        let envs = run_env_pairs(sandbox_log);
        let spawned = spawn_command(&bin, &args, &envs);
        SandboxServer::finish_spawn(home_dir, rpc_port, rpc_lock, net_port, net_lock, spawned)
    }

    /// Releases each held port reservation exactly once. Each lock is taken
    /// out of the server by an ownership-transferring read, so a second
    /// call finds nothing to release and is a guaranteed no-op. An OS
    /// unlock failure becomes an [`ErrorKind::Io`] error tagged with the
    /// affected port, and a failure on one lock does not prevent attempting
    /// to release the other; the first failure is reported.
    pub fn unlock_lockfiles(&mut self) -> (r: Result<(), Error>)
        ensures
            final(self)@ == (ServerView { rpc_lock: None, net_lock: None, ..old(self)@ }),
            old(self)@.rpc_lock is None && old(self)@.net_lock is None ==> r is Ok && *final(self)
                == *old(self),
            r matches Err(e) ==> e.spec_kind() == ErrorKind::Io && ((old(self)@.rpc_lock matches
                Some(l) && e.spec_message() == crate::port::unlock_failed_text(l.port)) || (old(
                self,
            )@.net_lock matches Some(l) && e.spec_message() == crate::port::unlock_failed_text(
                l.port,
            ))),
    {
        let mut first_failure: Option<Error> = None;
        match self.rpc_port_lock.take() {
            None => {
            },
            Some(mut lock) => {
                match lock.release() {
                    Ok(()) => {
                    },
                    Err(e) => {
                        first_failure = Some(e);
                    },
                }
            },
        }
        match self.net_port_lock.take() {
            None => {
            },
            Some(mut lock) => {
                match lock.release() {
                    Ok(()) => {
                    },
                    Err(e) => {
                        if first_failure.is_none() {
                            first_failure = Some(e);
                        }
                    },
                }
            },
        }
        match first_failure {
            None => Ok(()),
            Some(e) => Err(e),
        }
    }

    /// Terminates the owned node process, if any. On the connect path no
    /// process is owned and teardown is a no-op: the server is left
    /// untouched and no subprocess is signalled. A termination failure is
    /// an [`ErrorKind::RunFailure`] error: a leaked node process would
    /// silently keep its ports bound forever, so callers must treat it as
    /// fatal.
    pub fn terminate(&mut self) -> (r: Result<(), Error>)
        ensures
            final(self)@ == (ServerView { has_process: false, ..old(self)@ }),
            !old(self)@.has_process ==> r is Ok && *final(self) == *old(self),
            r matches Err(e) ==> e.spec_kind() == ErrorKind::RunFailure && e.spec_message()
                == kill_failed_text() && old(self)@.has_process,
    {
        match self.process.take() {
            None => Ok(()),
            Some(mut child) => {
                match kill_child(&mut child) {
                    Ok(()) => Ok(()),
                    Err(cause) => Err(
                        Error::full(
                            ErrorKind::RunFailure,
                            String::from_str("failed to terminate the sandbox node"),
                            cause,
                        ),
                    ),
                }
            },
        }
    }

    /// The OS process id of the owned node process, present exactly when a
    /// process is owned. It is what teardown should log, next to the RPC
    /// port, before the process is killed.
    pub fn process_id(&self) -> (r: Option<u32>)
        ensures
            r is Some <==> self@.has_process,
    {
        match &self.process {
            None => None,
            Some(child) => Some(child_id(child)),
        }
    }

    /// The RPC port of the node, absent only when a connect-path endpoint
    /// named none.
    pub fn rpc_port(&self) -> (r: Option<u16>)
        ensures
            r == self@.rpc_port,
    {
        self.rpc_port
    }

    /// The node-to-node networking port, present only on the spawn path.
    pub fn net_port(&self) -> (r: Option<u16>)
        ensures
            r == self@.net_port,
    {
        self.net_port
    }

    /// The full RPC endpoint URL.
    pub fn rpc_addr(&self) -> (r: String)
        ensures
            r@ == self@.rpc_addr,
    {
        self.rpc_addr.clone()
    }

    /// The credential needed to act as the node's validator.
    pub fn validator_key(&self) -> (r: &ValidatorKey)
        ensures
            r@ == self@.validator_key,
    {
        &self.validator_key
    }
}

} // verus!
