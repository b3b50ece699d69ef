//! Exclusive reservation of free OS ports.
//!
//! A reservation samples an OS-assigned free port and takes an exclusive
//! cross-process advisory lock on a well-known lock file keyed by the port
//! number, so that two concurrent launches on the same host never race onto
//! the same port: the lock file is the sole serialization point between the
//! moment a port is observed free and the moment the node process has bound
//! it.

use vstd::prelude::*;

use crate::error::Error;
use crate::error::ErrorKind;
use crate::text::dec_digits;
use crate::text::decimal_string;
use crate::text::lock_path_for;

verus! {

#[verifier::external_type_specification]
#[verifier::external_body]
pub struct ExLockFile(fslock::LockFile);

/// The outcome of opening a port's lock file and attempting to take its
/// exclusive lock without blocking.
enum LockAttempt {
    /// The handle owns the exclusive lock on the file.
    Locked(fslock::LockFile),
    /// Another handle, possibly of another process, owns the lock.
    Contended,
    /// Taking the lock failed for a reason other than contention.
    LockFailed(String),
    /// The lock file could not be opened or created.
    OpenFailed(String),
}

/// Relies on tempfile::env::temp_dir: the OS temporary directory, shared by
/// every process on the host.
#[verifier::external_body]
fn os_temp_dir() -> (r: String) {
    tempfile::env::temp_dir().to_string_lossy().into_owned()
}

/// Relies on portpicker::pick_unused_port: `Some(p)` is a port that was
/// observed free at sampling time (advisory only), `None` means the OS
/// could supply no free port.
#[verifier::external_body]
fn pick_port() -> (r: Option<u16>) {
    portpicker::pick_unused_port()
}

/// Whether a piece of text is free of NUL characters, as a path handed to
/// the OS must be.
pub open spec fn no_nul(s: Seq<char>) -> bool {
    forall|i: int| 0 <= i < s.len() ==> s[i] != '\0'
}

/// Checks that a piece of text is free of NUL characters.
fn has_no_nul(s: &String) -> (r: bool)
    ensures
        r == no_nul(s@),
{
    let text = s.as_str();
    let len = text.unicode_len();
    let mut i: usize = 0;
    while i < len
        invariant
            text@ == s@,
            len == text@.len(),
            i <= len,
            forall|j: int| 0 <= j < i ==> text@[j] != '\0',
        decreases len - i,
    {
        if text.get_char(i) == '\0' {
            proof {
                assert(s@[i as int] == '\0');
            }
            return false;
        }
        i = i + 1;
    }
    true
}

/// Relies on fslock::LockFile::open and fslock::LockFile::try_lock:
/// `Locked` carries a handle that owns the exclusive advisory lock on the
/// file at `path`, created if it did not exist; `Contended` means another
/// handle owns it right now. A freshly opened handle owns no lock, so the
/// panic `try_lock` reserves for handles that already own one cannot be
/// reached; the panic `open` reserves for paths with an interior NUL is
/// kept out by the precondition.
#[verifier::external_body]
fn open_and_try_lock(path: &String) -> (r: LockAttempt)
    requires
        no_nul(path@),
{
    let mut file = match fslock::LockFile::open(path.as_str()) {
        Ok(f) => f,
        Err(e) => return LockAttempt::OpenFailed(format!("{}", e)),
    };
    match file.try_lock() {
        Ok(true) => LockAttempt::Locked(file),
        Ok(false) => LockAttempt::Contended,
        Err(e) => LockAttempt::LockFailed(format!("{}", e)),
    }
}

/// Relies on fslock::LockFile::owns_lock and fslock::LockFile::unlock:
/// releases the exclusive lock the handle owns and closes the handle.
/// `unlock` panics on a handle that owns no lock, so such a handle is only
/// closed.
#[verifier::external_body]
fn unlock_and_close(file: fslock::LockFile) -> (r: Result<(), String>) {
    let mut file = file;
    if !file.owns_lock() {
        return Ok(());
    }
    match file.unlock() {
        Ok(()) => Ok(()),
        Err(e) => Err(format!("{}", e)),
    }
}

/// What a [`PortLock`] is, to contracts: the port it reserves, and whether
/// the exclusive lock is still held.
pub struct PortLockView {
    pub port: u16,
    pub held: bool,
}

/// An exclusive reservation of one port: the port number bound to an open,
/// exclusively locked file handle at the well-known lock-file path derived
/// from the port number.
///
/// The lock must be held for the whole window between "this port was
/// observed free" and "the node process has bound it". It is released
/// exactly once: explicitly through [`PortLock::release`], after which a
/// second release is a no-op, or at the latest when the handle is dropped.
pub struct PortLock {
    port: u16,
    file: Option<fslock::LockFile>,
}

impl View for PortLock {
    type V = PortLockView;

    closed spec fn view(&self) -> PortLockView {
        PortLockView { port: self.port, held: self.file is Some }
    }
}

impl PortLock {
    /// The port this reservation covers.
    pub fn port(&self) -> (r: u16)
        ensures
            r == self@.port,
    {
        self.port
    }

    /// Whether the exclusive lock is still held.
    pub fn held(&self) -> (r: bool)
        ensures
            r == self@.held,
    {
        self.file.is_some()
    }

    /// Releases the lock. The first call releases the file lock; any later
    /// call finds the handle already consumed and is a no-op, so releasing
    /// twice neither panics nor errors. An OS unlock failure becomes an
    /// [`ErrorKind::Io`] error tagged with the affected port.
    pub fn release(&mut self) -> (r: Result<(), Error>)
        ensures
            !final(self)@.held,
            final(self)@.port == old(self)@.port,
            !old(self)@.held ==> r is Ok && *final(self) == *old(self),
            r matches Err(e) ==> e.spec_kind() == ErrorKind::Io
                && e.spec_message() == unlock_failed_text(old(self)@.port)
                && old(self)@.held,
    {
        match self.file.take() {
            None => Ok(()),
            Some(file) => match unlock_and_close(file) {
                Ok(()) => Ok(()),
                Err(cause) => Err(Error::full(ErrorKind::Io, unlock_failed_message(self.port), cause)),
            },
        }
    }
}

/// The message of the error raised when the lock file of `port` cannot be
/// unlocked.
pub open spec fn unlock_failed_text(port: u16) -> Seq<char> {
    "failed to unlock lockfile for port "@ + dec_digits(port as nat)
}

fn unlock_failed_message(port: u16) -> (r: String)
    ensures
        r@ == unlock_failed_text(port),
{
    let mut r = String::from_str("failed to unlock lockfile for port ");
    let digits = decimal_string(port);
    r.append(digits.as_str());
    proof {
        assert(r@ =~= unlock_failed_text(port));
    }
    r
}

/// The message of the error raised when the lock file of `port` cannot be
/// created.
pub open spec fn lockfile_failed_text(port: u16) -> Seq<char> {
    "failed to create lockfile for port "@ + dec_digits(port as nat)
}

fn lockfile_failed_message(port: u16) -> (r: String)
    ensures
        r@ == lockfile_failed_text(port),
{
    let mut r = String::from_str("failed to create lockfile for port ");
    let digits = decimal_string(port);
    r.append(digits.as_str());
    proof {
        assert(r@ =~= lockfile_failed_text(port));
    }
    r
}

/// The message of the error raised when the OS can supply no free port.
pub open spec fn no_ports_text() -> Seq<char> {
    "no ports free"@
}

/// How many candidate ports one acquisition will sample before giving the
/// port pool up as exhausted. Contention is expected and cheap to resolve by
/// resampling, so the bound is far beyond the size of the whole port range;
/// it exists so that an acquisition provably terminates.
pub const MAX_PORT_SAMPLES: u64 = 16777216;

/// Acquires a free port and holds the exclusive lock on its lock file.
///
/// Repeatedly samples an OS-assigned free port and attempts a non-blocking
/// exclusive lock on the file derived from the port number. A candidate
/// whose lock is already held by someone mid-launch is discarded and a new
/// one sampled, never blocked on or retried. On success the caller must
/// retain the lock for as long as the port is considered reserved.
///
/// Fails with [`ErrorKind::InitFailure`] when the OS can supply no free
/// port, and with [`ErrorKind::Io`] when a lock file cannot be created;
/// neither is retried internally.
pub fn acquire_unused_port() -> (r: Result<(u16, PortLock), Error>)
    ensures
        r matches Ok(p) ==> p.1@.held && p.1@.port == p.0,
        r matches Err(e) ==> (e.spec_kind() == ErrorKind::InitFailure
            && e.spec_message() == no_ports_text())
            || (e.spec_kind() == ErrorKind::Io
            && (exists|p: u16| e.spec_message() == lockfile_failed_text(p))),
{
    let tmp = os_temp_dir();
    let mut samples_left: u64 = MAX_PORT_SAMPLES;
    loop
        decreases samples_left,
    {
        if samples_left == 0 {
            return Err(Error::new(ErrorKind::InitFailure, String::from_str("no ports free")));
        }
        samples_left = samples_left - 1;
        let port = match pick_port() {
            Some(p) => p,
            None => {
                return Err(Error::new(ErrorKind::InitFailure, String::from_str("no ports free")));
            },
        };
        let path = lock_path_for(tmp.as_str(), port);
        if !has_no_nul(&path) {
            return Err(
                Error::full(
                    ErrorKind::Io,
                    lockfile_failed_message(port),
                    String::from_str("the lock path holds a NUL character"),
                ),
            );
        }
        match open_and_try_lock(&path) {
            LockAttempt::Locked(file) => {
                return Ok((port, PortLock { port, file: Some(file) }));
            },
            LockAttempt::Contended => {
            },
            LockAttempt::LockFailed(_) => {
            },
            LockAttempt::OpenFailed(cause) => {
                return Err(Error::full(ErrorKind::Io, lockfile_failed_message(port), cause));
            },
        }
    }
}

} // verus!
