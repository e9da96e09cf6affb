//! The tagged outcome of a failed daemonization: which protocol step failed,
//! with the operating-system error code where the platform reported one.

use vstd::prelude::*;

verus! {

/// The protocol step that failed. Failures before the first fork
/// (target resolution, descriptor opening) are returned synchronously to the
/// original caller; later failures are only observable in the process branch
/// that was executing when they occurred.
#[derive(Clone, Copy, PartialEq, Eq, Debug)]
pub enum Error {
    /// The first fork failed, with the OS error code when available.
    FirstFork(Option<i32>),
    /// The second fork (after session creation) failed.
    SecondFork(Option<i32>),
    /// Creating a new session (detaching from the controlling terminal) failed.
    Setsid(Option<i32>),
    /// Changing the working directory to the filesystem root failed.
    Chdir(Option<i32>),
    /// The standard-output target path cannot be represented in the
    /// platform's native filename encoding.
    StdoutFilenameToStr,
    /// The standard-error target path cannot be represented in the
    /// platform's native filename encoding.
    StderrFilenameToStr,
    /// The standard-output target path holds an interior NUL character,
    /// at the given position, so no OS path can be formed from it.
    StdoutFilenameFFI(usize),
    /// The standard-error target path holds an interior NUL character,
    /// at the given position.
    StderrFilenameFFI(usize),
    /// Opening the standard-output target failed.
    OpenStdout(Option<i32>),
    /// Opening the standard-error target failed.
    OpenStderr(Option<i32>),
    /// Duplicating an acquired descriptor onto a standard stream slot failed.
    Duplication(Option<i32>),
}

} // verus!
