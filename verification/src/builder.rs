//! Deferred construction of a network handle.
//!
//! A [`NetworkBuilder`] is pure data: a network name, the network variant
//! it will build, and optional overrides for the RPC endpoint and the
//! validator credential. Nothing happens until [`NetworkBuilder::resolve`]
//! consumes the builder — exactly once, it being taken by value — and
//! either connects to the node the overrides name or decides that a new
//! node must be spawned, a sequence the caller then drives (see
//! [`Resolution`]).

use vstd::prelude::*;

use crate::error::Error;
use crate::error::ErrorKind;
use crate::server::SandboxServer;
use crate::server::ServerView;
use crate::server::ValidatorKey;
use crate::server::ValidatorKeyView;
use crate::server::invalid_rpc_text;
use crate::server::url_normalized;
use crate::server::url_parse_ok;
use crate::server::url_port;

verus! {

/// The closed set of network variants a builder can be made for. Only the
/// sandbox variant is constructed by this crate; the public networks are
/// reached through the RPC layer built on top of it.
#[derive(Clone, Copy, Debug, PartialEq, Eq, Structural)]
pub enum NetworkKind {
    Sandbox,
    Testnet,
    Mainnet,
}

/// What a [`NetworkBuilder`] is, to contracts.
pub struct BuilderView {
    pub network: NetworkKind,
    pub name: Seq<char>,
    pub rpc_addr: Option<Seq<char>>,
    pub validator_key: Option<ValidatorKeyView>,
}

/// The message of the error raised when a sandbox builder sets only one of
/// its two overrides: an externally managed node can only be reached when
/// both its endpoint and its validator credential are supplied, and a node
/// spawned here needs neither.
pub open spec fn unpaired_overrides_text() -> Seq<char> {
    "rpc_addr and validator_key must be set together for sandbox"@
}

/// The message of the error raised when a builder is resolved for a
/// network variant this crate does not construct.
pub open spec fn foreign_network_text() -> Seq<char> {
    "only the sandbox network is constructed here"@
}

/// The outcome of a successful resolution: either a handle that is ready
/// to use, or the decision that a new node must be spawned. Spawning takes
/// two steps the verified core does not reach — the process-wide
/// log-suppression policy and the configuration patch of the fresh home
/// directory — so the caller drives them: apply the policy, run
/// [`crate::init_home_dir`], patch the directory's configuration, and hand
/// the directory to [`SandboxServer::run_new_in`].
pub enum Resolution {
    /// The handle is ready: an externally managed node was connected to.
    Ready(SandboxServer),
    /// A new node must be spawned to obtain endpoint and credential.
    SpawnNeeded,
}

/// Accumulates configuration for one network handle; see the module text.
pub struct NetworkBuilder {
    network: NetworkKind,
    name: String,
    rpc_addr: Option<String>,
    validator_key: Option<ValidatorKey>,
}

impl View for NetworkBuilder {
    type V = BuilderView;

    closed spec fn view(&self) -> BuilderView {
        BuilderView {
            network: self.network,
            name: self.name@,
            rpc_addr: match self.rpc_addr {
                Some(a) => Some(a@),
                None => None,
            },
            validator_key: match self.validator_key {
                Some(k) => Some(k@),
                None => None,
            },
        }
    }
}

impl NetworkBuilder {
    /// A builder for `network` with both overrides unset.
    pub fn new(network: NetworkKind, name: &str) -> (r: NetworkBuilder)
        ensures
            r@ == (BuilderView { network, name: name@, rpc_addr: None, validator_key: None }),
    {
        NetworkBuilder { network, name: String::from_str(name), rpc_addr: None, validator_key: None }
    }

    /// Sets the RPC endpoint of an externally managed node to connect to
    /// instead of spawning one. For the sandbox variant,
    /// [`NetworkBuilder::validator_key`] must then be set as well.
    pub fn rpc_addr(self, addr: &str) -> (r: NetworkBuilder)
        ensures
            r@ == (BuilderView { rpc_addr: Some(addr@), ..self@ }),
    {
        NetworkBuilder { rpc_addr: Some(String::from_str(addr)), ..self }
    }

    /// Sets how to obtain the validator credential of an externally
    /// managed sandbox node: a known key, or the home directory its chain
    /// data lives in. Only the sandbox variant reads it.
    pub fn validator_key(self, validator_key: ValidatorKey) -> (r: NetworkBuilder)
        ensures
            r@ == (BuilderView { validator_key: Some(validator_key@), ..self@ }),
    {
        NetworkBuilder { validator_key: Some(validator_key), ..self }
    }

    /// Resolves the builder, consuming it.
    ///
    /// For the sandbox variant: with both overrides set, this connects to
    /// the externally managed node they name and the handle is
    /// [`Resolution::Ready`]; with neither set, a new node must be spawned
    /// to obtain endpoint and credential, which the caller drives as
    /// [`Resolution::SpawnNeeded`] describes; with exactly one set, the
    /// configuration is incomplete and resolution fails with
    /// [`ErrorKind::InitFailure`]. Variants this crate does not construct
    /// fail the same way.
    pub fn resolve(self) -> (r: Result<Resolution, Error>)
        ensures
            self@.network != NetworkKind::Sandbox ==> (r matches Err(e) && e.spec_kind()
                == ErrorKind::InitFailure && e.spec_message() == foreign_network_text()),
            self@.network == NetworkKind::Sandbox ==> match (self@.rpc_addr, self@.validator_key) {
                (Some(a), Some(k)) => (r is Ok <==> url_parse_ok(a)) && (r matches Ok(res) ==> res
                    matches Resolution::Ready(s) && s@ == (ServerView {
                    validator_key: k,
                    rpc_addr: url_normalized(a),
                    rpc_port: url_port(a),
                    net_port: None,
                    rpc_lock: None,
                    net_lock: None,
                    has_process: false,
                })) && (r matches Err(e) ==> e.spec_kind() == ErrorKind::InitFailure
                    && e.spec_message() == invalid_rpc_text(a)),
                (None, None) => r matches Ok(res) && res is SpawnNeeded,
                _ => r matches Err(e) && e.spec_kind() == ErrorKind::InitFailure
                    && e.spec_message() == unpaired_overrides_text(),
            },
    {
        match self.network {
            NetworkKind::Sandbox => match (self.rpc_addr, self.validator_key) {
                (Some(addr), Some(key)) => match SandboxServer::connect(addr, key) {
                    Ok(server) => Ok(Resolution::Ready(server)),
                    Err(e) => Err(e),
                },
                (None, None) => Ok(Resolution::SpawnNeeded),
                _ => Err(
                    Error::new(
                        ErrorKind::InitFailure,
                        String::from_str("rpc_addr and validator_key must be set together for sandbox"),
                    ),
                ),
            },
            _ => Err(
                Error::new(
                    ErrorKind::InitFailure,
                    String::from_str("only the sandbox network is constructed here"),
                ),
            ),
        }
    }
}

} // verus!
