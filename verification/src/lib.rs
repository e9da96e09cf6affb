//! Turning a foreground process into a detached daemon: the classic
//! double-fork / session-leader protocol, with optional redirection of the
//! standard output and error streams and an optional change of working
//! directory to the filesystem root.
//!
//! The crate holds the protocol itself — the ordered state machine of
//! process-control steps and the descriptor-ownership discipline that keeps
//! file descriptors from leaking on any exit path. The operating-system calls
//! (fork, setsid, open, dup2, close) are performed by a small unverified
//! driver that asks [`protocol::Session`] what to do next and reports each
//! outcome back as a [`protocol::Event`].

use vstd::prelude::*;

pub mod error;
pub mod guard;
pub mod target;
pub mod protocol;

pub use error::Error;

verus! {

/// The descriptor slot of the standard output stream.
pub const STDOUT_SLOT: i32 = 1;

/// The descriptor slot of the standard error stream.
pub const STDERR_SLOT: i32 = 2;

} // verus!
