//! Lifecycle management for an ephemeral local blockchain test node.
//!
//! The crate reserves exclusive network ports through cross-process lock
//! files, initializes a home directory for the node, launches the node as a
//! child process bound to the reserved ports, and guarantees that the
//! process is terminated and the port reservations are released however the
//! caller's session ends.

mod builder;
mod error;
mod port;
mod server;
mod text;

pub use builder::BuilderView;
pub use builder::NetworkBuilder;
pub use builder::NetworkKind;
pub use builder::Resolution;

pub use error::Error;
pub use error::ErrorKind;
pub use port::PortLock;
pub use port::PortLockView;
pub use port::acquire_unused_port;
pub use server::SandboxServer;
pub use server::ServerView;
pub use server::ValidatorKey;
pub use server::ValidatorKeyView;
pub use server::finish_init;
pub use server::init_args;
pub use server::init_home_dir;
pub use server::run_args;
pub use server::run_env_pairs;
pub use server::sandbox_log_override;
