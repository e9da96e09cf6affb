//! The detachment protocol: the ordered state machine that turns the calling
//! process into a daemon.
//!
//! A [`Session`] never performs an operating-system call itself. It tells its
//! driver which [`Action`] is due next, the driver performs the call (open,
//! fork, setsid, signal disposition, chdir, dup2) and reports the outcome as
//! an [`Event`], and the session answers with a [`Directive`]: go on, exit
//! this parent branch, fail with a tagged error, or complete. Descriptors the
//! driver must now close are queued in the session and handed out through
//! [`Session::take_closables`]; the session's well-formedness invariant keeps
//! that queue free of duplicates and of descriptors still owned by a guard,
//! so the driver closes each descriptor at most once.

use vstd::prelude::*;
use crate::error::Error;
use crate::guard::DescriptorGuard;
use crate::target::StreamKind;
use crate::STDOUT_SLOT;
use crate::STDERR_SLOT;

verus! {

/// What to do with the working directory of the final daemon.
#[derive(Clone, Copy, PartialEq, Eq, Debug)]
pub enum DirMode {
    /// Leave the working directory unaffected.
    NoChange,
    /// Change the working directory to the filesystem root.
    ChangeToRoot,
}

/// The states of the protocol, in the order a successful run passes them.
#[derive(Clone, Copy, PartialEq, Eq, Debug)]
pub enum State {
    /// Opening the standard-output target.
    AcquiringStdout,
    /// Opening the standard-error target.
    AcquiringStderr,
    /// Both targets acquired; about to fork for the first time.
    Foreground,
    /// Child of the first fork; about to create a new session.
    IntermediateChild,
    /// Session leader, detached from the controlling terminal; about to set
    /// the terminal-hangup signal disposition to ignore.
    SessionLeader,
    /// Hangup disposition handled; about to fork a second time.
    HangupIgnored,
    /// Child of the second fork, in `ChangeToRoot` mode only; about to change
    /// the working directory to the filesystem root.
    PreDaemon,
    /// About to duplicate the acquired output descriptor onto the
    /// standard-output slot.
    RedirectingStdout,
    /// About to duplicate the acquired error descriptor onto the
    /// standard-error slot.
    RedirectingStderr,
    /// Terminal: the daemon is established and the caller's continuation runs
    /// with redirected streams.
    Daemon,
    /// Terminal: this process is a parent branch and must exit immediately
    /// with a success status.
    ParentBranch,
    /// Terminal: a step failed; every owned descriptor has been queued for
    /// closing.
    Failed,
}

/// The operating-system operation the driver must perform next.
#[derive(Clone, Copy, PartialEq, Eq, Debug)]
pub enum Action {
    /// Open the resolved target of the given stream for append-only writing,
    /// creating it if absent, readable and writable by owner and group.
    OpenTarget(StreamKind),
    /// Fork the process; both branches report their own outcome.
    Fork,
    /// Create a new session, detaching from the controlling terminal.
    CreateSession,
    /// Set the disposition of the terminal-hangup signal to ignore. This step
    /// is best-effort: its outcome is reported but never fails the protocol.
    IgnoreHangup,
    /// Change the working directory to the filesystem root.
    ChangeDirToRoot,
    /// Duplicate the given descriptor onto the slot of the given stream.
    Redirect(StreamKind, i32),
}

/// The outcome of one action, as the driver observed it.
#[derive(Clone, Copy, PartialEq, Eq, Debug)]
pub enum Event {
    /// The open call returned this descriptor (never negative).
    Opened(i32),
    /// The open call failed, with the OS error code when available.
    OpenFailed(Option<i32>),
    /// The fork succeeded and this process is the child.
    ForkedChild,
    /// The fork succeeded and this process is the parent.
    ForkedParent,
    /// The fork failed.
    ForkFailed(Option<i32>),
    /// The session was created.
    SessionCreated,
    /// Session creation failed.
    SessionFailed(Option<i32>),
    /// The hangup-signal disposition call was made, with either outcome.
    HangupHandled,
    /// The working directory is now the filesystem root.
    DirChanged,
    /// Changing the working directory failed.
    DirChangeFailed(Option<i32>),
    /// The duplication onto the standard slot succeeded.
    Redirected,
    /// The duplication failed.
    RedirectFailed(Option<i32>),
}

/// What the driver must do after reporting an event.
#[derive(Clone, Copy, PartialEq, Eq, Debug)]
pub enum Directive {
    /// Perform the next pending action.
    Continue,
    /// This process is a parent branch: close nothing and exit immediately
    /// with a success status.
    ExitParent,
    /// The protocol failed: close the queued descriptors, then report the
    /// error (or terminate, past the first fork).
    Fail(Error),
    /// The daemon is established: close the queued descriptors and return
    /// control to the caller's continuation.
    Complete,
}

/// `ev` reports a failed step.
pub open spec fn is_failure(ev: Event) -> bool {
    match ev {
        Event::OpenFailed(_) => true,
        Event::ForkFailed(_) => true,
        Event::SessionFailed(_) => true,
        Event::DirChangeFailed(_) => true,
        Event::RedirectFailed(_) => true,
        _ => false,
    }
}

/// No element occurs twice in `s`.
pub open spec fn distinct(s: Seq<i32>) -> bool {
    forall|i: int, j: int| 0 <= i < j < s.len() ==> s[i] != s[j]
}

/// The descriptors queued when a source descriptor is transferred to a
/// standard slot: the source itself, unless it already occupies one of the
/// two output slots (then the slot is the only remaining reference and must
/// stay open).
pub open spec fn transfer_list(g: DescriptorGuard) -> Seq<i32> {
    if g.armed && g.fd != STDOUT_SLOT && g.fd != STDERR_SLOT {
        seq![g.fd]
    } else {
        Seq::empty()
    }
}

/// One daemonization in progress: the protocol state, the caller's directory
/// mode, the guards owning the two acquired descriptors, and the queue of
/// descriptors the driver still has to close.
pub struct Session {
    /// Where the protocol stands.
    pub state: State,
    /// The caller's directory-change mode.
    pub mode: DirMode,
    /// Guard of the standard-output target descriptor.
    pub stdout_guard: DescriptorGuard,
    /// Guard of the standard-error target descriptor.
    pub stderr_guard: DescriptorGuard,
    /// Descriptors the driver must close, each exactly once.
    pub pending_close: Vec<i32>,
    /// Whether the working directory has been changed to the root.
    pub dir_changed: bool,
}

impl Session {
    /// Guards still owning a descriptor.
    pub open spec fn owned_count(self) -> int {
        (if self.stdout_guard.owns() {
            1int
        } else {
            0int
        }) + (if self.stderr_guard.owns() {
            1int
        } else {
            0int
        })
    }

    /// Well-formedness: the guards, the close queue and the directory flag
    /// agree with the protocol state. Established by [`Session::new`] and
    /// preserved by every step.
    pub open spec fn wf(self) -> bool {
        &&& match self.state {
            State::AcquiringStdout => !self.stdout_guard.armed && !self.stderr_guard.armed
                && self.pending_close@.len() == 0 && !self.dir_changed,
            State::AcquiringStderr => self.stdout_guard.owns() && !self.stderr_guard.armed
                && self.pending_close@.len() == 0 && !self.dir_changed,
            State::Foreground | State::IntermediateChild | State::SessionLeader
                | State::HangupIgnored => self.stdout_guard.owns() && self.stderr_guard.owns()
                && self.pending_close@.len() == 0 && !self.dir_changed,
            State::PreDaemon => self.stdout_guard.owns() && self.stderr_guard.owns()
                && self.pending_close@.len() == 0 && !self.dir_changed && self.mode
                == DirMode::ChangeToRoot,
            State::RedirectingStdout => self.stdout_guard.owns() && self.stderr_guard.owns()
                && self.pending_close@.len() == 0 && self.dir_settled(),
            State::RedirectingStderr => !self.stdout_guard.armed && self.stderr_guard.owns()
                && self.dir_settled(),
            State::Daemon => !self.stdout_guard.armed && !self.stderr_guard.armed
                && self.dir_settled(),
            State::ParentBranch => true,
            State::Failed => !self.stdout_guard.armed && !self.stderr_guard.armed,
        }
        &&& (self.stdout_guard.armed && self.stderr_guard.armed ==> self.stdout_guard.fd
            != self.stderr_guard.fd)
        &&& (self.stdout_guard.armed ==> !self.pending_close@.contains(self.stdout_guard.fd))
        &&& (self.stderr_guard.armed ==> !self.pending_close@.contains(self.stderr_guard.fd))
        &&& distinct(self.pending_close@)
        &&& (forall|j: int| 0 <= j < self.pending_close@.len() ==> self.pending_close@[j] >= 0)
        &&& (self.dir_changed ==> self.mode == DirMode::ChangeToRoot)
    }

    /// Past the directory step, the directory was changed exactly when the
    /// mode asked for it.
    pub open spec fn dir_settled(self) -> bool {
        self.dir_changed <==> self.mode == DirMode::ChangeToRoot
    }

    /// The action due in the current state, none in a terminal state.
    pub open spec fn current_action(self) -> Option<Action> {
        match self.state {
            State::AcquiringStdout => Some(Action::OpenTarget(StreamKind::Stdout)),
            State::AcquiringStderr => Some(Action::OpenTarget(StreamKind::Stderr)),
            State::Foreground => Some(Action::Fork),
            State::IntermediateChild => Some(Action::CreateSession),
            State::SessionLeader => Some(Action::IgnoreHangup),
            State::HangupIgnored => Some(Action::Fork),
            State::PreDaemon => Some(Action::ChangeDirToRoot),
            State::RedirectingStdout => Some(
                Action::Redirect(StreamKind::Stdout, self.stdout_guard.fd),
            ),
            State::RedirectingStderr => Some(
                Action::Redirect(StreamKind::Stderr, self.stderr_guard.fd),
            ),
            State::Daemon => None,
            State::ParentBranch => None,
            State::Failed => None,
        }
    }

    /// `ev` is an outcome the pending action of this session can have. An
    /// `Opened` descriptor is never negative, and — since the descriptor
    /// already acquired for standard output is still open — never equal to
    /// that one: the OS returns a descriptor not currently in use.
    pub open spec fn event_fits(self, ev: Event) -> bool {
        match self.state {
            State::AcquiringStdout => match ev {
                Event::Opened(fd) => fd >= 0,
                Event::OpenFailed(_) => true,
                _ => false,
            },
            State::AcquiringStderr => match ev {
                Event::Opened(fd) => fd >= 0 && fd != self.stdout_guard.fd,
                Event::OpenFailed(_) => true,
                _ => false,
            },
            State::Foreground | State::HangupIgnored => match ev {
                Event::ForkedChild | Event::ForkedParent | Event::ForkFailed(_) => true,
                _ => false,
            },
            State::IntermediateChild => match ev {
                Event::SessionCreated | Event::SessionFailed(_) => true,
                _ => false,
            },
            State::SessionLeader => ev == Event::HangupHandled,
            State::PreDaemon => match ev {
                Event::DirChanged | Event::DirChangeFailed(_) => true,
                _ => false,
            },
            State::RedirectingStdout | State::RedirectingStderr => match ev {
                Event::Redirected | Event::RedirectFailed(_) => true,
                _ => false,
            },
            State::Daemon | State::ParentBranch | State::Failed => false,
        }
    }

    /// The error a failure event in the current state reports.
    pub open spec fn failure_error(self, ev: Event) -> Error {
        match (self.state, ev) {
            (State::AcquiringStdout, Event::OpenFailed(e)) => Error::OpenStdout(e),
            (State::AcquiringStderr, Event::OpenFailed(e)) => Error::OpenStderr(e),
            (State::Foreground, Event::ForkFailed(e)) => Error::FirstFork(e),
            (State::IntermediateChild, Event::SessionFailed(e)) => Error::Setsid(e),
            (State::HangupIgnored, Event::ForkFailed(e)) => Error::SecondFork(e),
            (State::PreDaemon, Event::DirChangeFailed(e)) => Error::Chdir(e),
            (State::RedirectingStdout, Event::RedirectFailed(e)) => Error::Duplication(e),
            (State::RedirectingStderr, Event::RedirectFailed(e)) => Error::Duplication(e),
            _ => Error::Duplication(None),
        }
    }

    /// Relates a session before and after a failing step: the state is
    /// `Failed`, both guards are disarmed, and exactly the descriptors they
    /// owned were appended to the close queue, standard output first.
    pub open spec fn fail_step(pre: Session, post: Session) -> bool {
        &&& post.state == State::Failed
        &&& post.mode == pre.mode
        &&& post.dir_changed == pre.dir_changed
        &&& post.stdout_guard == (DescriptorGuard { fd: pre.stdout_guard.fd, armed: false })
        &&& post.stderr_guard == (DescriptorGuard { fd: pre.stderr_guard.fd, armed: false })
        &&& post.pending_close@ == pre.pending_close@ + pre.stdout_guard.close_list()
            + pre.stderr_guard.close_list()
    }

    /// Relates a session before and after a step that only moves to `st`,
    /// touching neither guards nor queue nor directory flag.
    pub open spec fn moved_to(pre: Session, post: Session, st: State) -> bool {
        &&& post.state == st
        &&& post.mode == pre.mode
        &&& post.dir_changed == pre.dir_changed
        &&& post.stdout_guard == pre.stdout_guard
        &&& post.stderr_guard == pre.stderr_guard
        &&& post.pending_close@ == pre.pending_close@
    }

    /// The transition relation of the protocol: one step on event `ev` from
    /// `pre` to `post`, answering `d`. This is the complete table of states
    /// times events; every verified step of [`Session::on_event`] satisfies
    /// it.
    pub open spec fn stepped(pre: Session, ev: Event, post: Session, d: Directive) -> bool {
        match (pre.state, ev) {
            (State::AcquiringStdout, Event::Opened(fd)) => {
                &&& post.state == State::AcquiringStderr
                &&& post.mode == pre.mode
                &&& post.dir_changed == pre.dir_changed
                &&& post.stdout_guard == (DescriptorGuard { fd, armed: true })
                &&& post.stderr_guard == pre.stderr_guard
                &&& post.pending_close@ == pre.pending_close@
                &&& d == Directive::Continue
            },
            (State::AcquiringStdout, Event::OpenFailed(e)) => Self::fail_step(pre, post) && d
                == Directive::Fail(Error::OpenStdout(e)),
            (State::AcquiringStderr, Event::Opened(fd)) => {
                &&& post.state == State::Foreground
                &&& post.mode == pre.mode
                &&& post.dir_changed == pre.dir_changed
                &&& post.stdout_guard == pre.stdout_guard
                &&& post.stderr_guard == (DescriptorGuard { fd, armed: true })
                &&& post.pending_close@ == pre.pending_close@
                &&& d == Directive::Continue
            },
            (State::AcquiringStderr, Event::OpenFailed(e)) => Self::fail_step(pre, post) && d
                == Directive::Fail(Error::OpenStderr(e)),
            (State::Foreground, Event::ForkedChild) => Self::moved_to(
                pre,
                post,
                State::IntermediateChild,
            ) && d == Directive::Continue,
            (State::Foreground, Event::ForkedParent) => Self::moved_to(
                pre,
                post,
                State::ParentBranch,
            ) && d == Directive::ExitParent,
            (State::Foreground, Event::ForkFailed(e)) => Self::fail_step(pre, post) && d
                == Directive::Fail(Error::FirstFork(e)),
            (State::IntermediateChild, Event::SessionCreated) => Self::moved_to(
                pre,
                post,
                State::SessionLeader,
            ) && d == Directive::Continue,
            (State::IntermediateChild, Event::SessionFailed(e)) => Self::fail_step(pre, post) && d
                == Directive::Fail(Error::Setsid(e)),
            (State::SessionLeader, Event::HangupHandled) => Self::moved_to(
                pre,
                post,
                State::HangupIgnored,
            ) && d == Directive::Continue,
            (State::HangupIgnored, Event::ForkedChild) => Self::moved_to(
                pre,
                post,
                if pre.mode == DirMode::ChangeToRoot {
                    State::PreDaemon
                } else {
                    State::RedirectingStdout
                },
            ) && d == Directive::Continue,
            (State::HangupIgnored, Event::ForkedParent) => Self::moved_to(
                pre,
                post,
                State::ParentBranch,
            ) && d == Directive::ExitParent,
            (State::HangupIgnored, Event::ForkFailed(e)) => Self::fail_step(pre, post) && d
                == Directive::Fail(Error::SecondFork(e)),
            (State::PreDaemon, Event::DirChanged) => {
                &&& post.state == State::RedirectingStdout
                &&& post.mode == pre.mode
                &&& post.dir_changed
                &&& post.stdout_guard == pre.stdout_guard
                &&& post.stderr_guard == pre.stderr_guard
                &&& post.pending_close@ == pre.pending_close@
                &&& d == Directive::Continue
            },
            (State::PreDaemon, Event::DirChangeFailed(e)) => Self::fail_step(pre, post) && d
                == Directive::Fail(Error::Chdir(e)),
            (State::RedirectingStdout, Event::Redirected) => {
                &&& post.state == State::RedirectingStderr
                &&& post.mode == pre.mode
                &&& post.dir_changed == pre.dir_changed
                &&& post.stdout_guard == (DescriptorGuard {
                    fd: pre.stdout_guard.fd,
                    armed: false,
                })
                &&& post.stderr_guard == pre.stderr_guard
                &&& post.pending_close@ == pre.pending_close@ + transfer_list(pre.stdout_guard)
                &&& d == Directive::Continue
            },
            (State::RedirectingStdout, Event::RedirectFailed(e)) => Self::fail_step(pre, post) && d
                == Directive::Fail(Error::Duplication(e)),
            (State::RedirectingStderr, Event::Redirected) => {
                &&& post.state == State::Daemon
                &&& post.mode == pre.mode
                &&& post.dir_changed == pre.dir_changed
                &&& post.stdout_guard == pre.stdout_guard
                &&& post.stderr_guard == (DescriptorGuard {
                    fd: pre.stderr_guard.fd,
                    armed: false,
                })
                &&& post.pending_close@ == pre.pending_close@ + transfer_list(pre.stderr_guard)
                &&& d == Directive::Complete
            },
            (State::RedirectingStderr, Event::RedirectFailed(e)) => Self::fail_step(pre, post) && d
                == Directive::Fail(Error::Duplication(e)),
            _ => false,
        }
    }

    /// A fresh session for one daemonization, about to acquire the
    /// standard-output target.
    pub fn new(mode: DirMode) -> (s: Session)
        ensures
            s.wf(),
            s.state == State::AcquiringStdout,
            s.mode == mode,
            s.stdout_guard == (DescriptorGuard { fd: -1i32, armed: false }),
            s.stderr_guard == (DescriptorGuard { fd: -1i32, armed: false }),
            s.pending_close@.len() == 0,
            !s.dir_changed,
    {
        Session {
            state: State::AcquiringStdout,
            mode,
            stdout_guard: DescriptorGuard::vacant(),
            stderr_guard: DescriptorGuard::vacant(),
            pending_close: Vec::new(),
            dir_changed: false,
        }
    }

    /// The action the driver must perform next, none in a terminal state.
    pub fn pending_action(&self) -> (r: Option<Action>)
        ensures
            r == self.current_action(),
    {
        match self.state {
            State::AcquiringStdout => Some(Action::OpenTarget(StreamKind::Stdout)),
            State::AcquiringStderr => Some(Action::OpenTarget(StreamKind::Stderr)),
            State::Foreground => Some(Action::Fork),
            State::IntermediateChild => Some(Action::CreateSession),
            State::SessionLeader => Some(Action::IgnoreHangup),
            State::HangupIgnored => Some(Action::Fork),
            State::PreDaemon => Some(Action::ChangeDirToRoot),
            State::RedirectingStdout => Some(
                Action::Redirect(StreamKind::Stdout, self.stdout_guard.raw()),
            ),
            State::RedirectingStderr => Some(
                Action::Redirect(StreamKind::Stderr, self.stderr_guard.raw()),
            ),
            State::Daemon => None,
            State::ParentBranch => None,
            State::Failed => None,
        }
    }

    /// Fail the protocol: disarm both guards, queue exactly the descriptors
    /// they owned (standard output first), and answer `Fail(err)`.
    fn fail(&mut self, err: Error) -> (d: Directive)
        requires
            old(self).wf(),
            old(self).state != State::Failed,
        ensures
            final(self).wf(),
            Self::fail_step(*old(self), *final(self)),
            d == Directive::Fail(err),
    {
        let ghost pre = *self;
        match self.stdout_guard.release() {
            Some(fd) => self.pending_close.push(fd),
            None => (),
        }
        let ghost mid = self.pending_close@;
        match self.stderr_guard.release() {
            Some(fd) => self.pending_close.push(fd),
            None => (),
        }
        self.state = State::Failed;
        proof {
            assert(mid =~= pre.pending_close@ + pre.stdout_guard.close_list());
            assert(self.pending_close@ =~= mid + pre.stderr_guard.close_list());
            assert(self.pending_close@ =~= pre.pending_close@ + pre.stdout_guard.close_list()
                + pre.stderr_guard.close_list());
        }
        Directive::Fail(err)
    }

    /// Report the outcome of the pending action and learn what to do next.
    /// The step taken is exactly the one [`Session::stepped`] describes for
    /// the current state and `ev`, and it preserves well-formedness.
    pub fn on_event(&mut self, ev: Event) -> (d: Directive)
        requires
            old(self).wf(),
            old(self).event_fits(ev),
        ensures
            final(self).wf(),
            Self::stepped(*old(self), ev, *final(self), d),
    {
        let ghost pre = *self;
        match (self.state, ev) {
            (State::AcquiringStdout, Event::Opened(fd)) => {
                self.stdout_guard = DescriptorGuard::acquire(fd);
                self.state = State::AcquiringStderr;
                Directive::Continue
            },
            (State::AcquiringStdout, Event::OpenFailed(e)) => self.fail(Error::OpenStdout(e)),
            (State::AcquiringStderr, Event::Opened(fd)) => {
                self.stderr_guard = DescriptorGuard::acquire(fd);
                self.state = State::Foreground;
                Directive::Continue
            },
            (State::AcquiringStderr, Event::OpenFailed(e)) => self.fail(Error::OpenStderr(e)),
            (State::Foreground, Event::ForkedChild) => {
                self.state = State::IntermediateChild;
                Directive::Continue
            },
            (State::Foreground, Event::ForkedParent) => {
                self.state = State::ParentBranch;
                Directive::ExitParent
            },
            (State::Foreground, Event::ForkFailed(e)) => self.fail(Error::FirstFork(e)),
            (State::IntermediateChild, Event::SessionCreated) => {
                self.state = State::SessionLeader;
                Directive::Continue
            },
            (State::IntermediateChild, Event::SessionFailed(e)) => self.fail(Error::Setsid(e)),
            (State::SessionLeader, Event::HangupHandled) => {
                self.state = State::HangupIgnored;
                Directive::Continue
            },
            (State::HangupIgnored, Event::ForkedChild) => {
                self.state = match self.mode {
                    DirMode::ChangeToRoot => State::PreDaemon,
                    DirMode::NoChange => State::RedirectingStdout,
                };
                Directive::Continue
            },
            (State::HangupIgnored, Event::ForkedParent) => {
                self.state = State::ParentBranch;
                Directive::ExitParent
            },
            (State::HangupIgnored, Event::ForkFailed(e)) => self.fail(Error::SecondFork(e)),
            (State::PreDaemon, Event::DirChanged) => {
                self.dir_changed = true;
                self.state = State::RedirectingStdout;
                Directive::Continue
            },
            (State::PreDaemon, Event::DirChangeFailed(e)) => self.fail(Error::Chdir(e)),
            (State::RedirectingStdout, Event::Redirected) => {
                let fd = self.stdout_guard.raw();
                self.stdout_guard.disarm();
                if fd != STDOUT_SLOT && fd != STDERR_SLOT {
                    self.pending_close.push(fd);
                }
                self.state = State::RedirectingStderr;
                proof {
                    assert(self.pending_close@ =~= pre.pending_close@ + transfer_list(
                        pre.stdout_guard,
                    ));
                }
                Directive::Continue
            },
            (State::RedirectingStdout, Event::RedirectFailed(e)) => self.fail(
                Error::Duplication(e),
            ),
            (State::RedirectingStderr, Event::Redirected) => {
                let fd = self.stderr_guard.raw();
                self.stderr_guard.disarm();
                if fd != STDOUT_SLOT && fd != STDERR_SLOT {
                    self.pending_close.push(fd);
                }
                self.state = State::Daemon;
                proof {
                    assert(self.pending_close@ =~= pre.pending_close@ + transfer_list(
                        pre.stderr_guard,
                    ));
                }
                Directive::Complete
            },
            (State::RedirectingStderr, Event::RedirectFailed(e)) => self.fail(
                Error::Duplication(e),
            ),
            _ => {
                proof {
                    assert(false);
                }
                Directive::Continue
            },
        }
    }

    /// Hand out the queued descriptors for closing, emptying the queue. The
    /// list holds no duplicates and no descriptor a guard still owns, so the
    /// driver closing each entry closes nothing twice.
    pub fn take_closables(&mut self) -> (r: Vec<i32>)
        requires
            old(self).wf(),
        ensures
            final(self).wf(),
            r@ == old(self).pending_close@,
            final(self).pending_close@.len() == 0,
            final(self).state == old(self).state,
            final(self).mode == old(self).mode,
            final(self).stdout_guard == old(self).stdout_guard,
            final(self).stderr_guard == old(self).stderr_guard,
            final(self).dir_changed == old(self).dir_changed,
            distinct(r@),
            old(self).stdout_guard.armed ==> !r@.contains(old(self).stdout_guard.fd),
            old(self).stderr_guard.armed ==> !r@.contains(old(self).stderr_guard.fd),
    {
        let mut out: Vec<i32> = Vec::new();
        core::mem::swap(&mut out, &mut self.pending_close);
        proof {
            assert(self.pending_close@ =~= Seq::<i32>::empty());
        }
        out
    }
}

/// Law: every failing step hands back every descriptor still owned. After it,
/// no guard owns anything, the directive reports exactly the error of the
/// failed step, and the close queue grew by exactly the owned descriptors —
/// so once the driver has drained and closed the queue, the number of open
/// descriptors attributable to the call is zero.
pub proof fn lemma_failure_releases_every_descriptor(
    pre: Session,
    ev: Event,
    post: Session,
    d: Directive,
)
    requires
        pre.wf(),
        pre.event_fits(ev),
        is_failure(ev),
        Session::stepped(pre, ev, post, d),
    ensures
        post.state == State::Failed,
        !post.stdout_guard.armed,
        !post.stderr_guard.armed,
        post.owned_count() == 0,
        d == Directive::Fail(pre.failure_error(ev)),
        post.pending_close@ == pre.pending_close@ + pre.stdout_guard.close_list()
            + pre.stderr_guard.close_list(),
        post.pending_close@.len() == pre.pending_close@.len() + pre.owned_count(),
{
}

/// Law: what each directive answers. A parent branch is told to exit exactly
/// on the parent outcome of a fork — unconditionally, whatever else the
/// session holds; a failure is reported exactly on a failure event; and the
/// protocol completes exactly when the error stream was the one redirected,
/// the last step of the sequence. Every other step continues.
pub proof fn lemma_directive_classification(pre: Session, ev: Event, post: Session, d: Directive)
    requires
        pre.wf(),
        pre.event_fits(ev),
        Session::stepped(pre, ev, post, d),
    ensures
        (d == Directive::ExitParent) <==> ev == Event::ForkedParent,
        (d matches Directive::Fail(_)) <==> is_failure(ev),
        (d == Directive::Complete) <==> (pre.state == State::RedirectingStderr && ev
            == Event::Redirected),
{
}

/// Law: in mode `NoChange` the protocol never asks for a directory change and
/// never records one: the working directory stays unaffected in every
/// reachable session.
pub proof fn lemma_no_change_keeps_directory(s: Session)
    requires
        s.wf(),
        s.mode == DirMode::NoChange,
    ensures
        s.current_action() != Some(Action::ChangeDirToRoot),
        !s.dir_changed,
{
}

/// Law: a session that reached the `Daemon` state changed the working
/// directory to the root exactly when its mode was `ChangeToRoot`.
pub proof fn lemma_daemon_directory(s: Session)
    requires
        s.wf(),
        s.state == State::Daemon,
    ensures
        s.dir_changed <==> s.mode == DirMode::ChangeToRoot,
{
}

/// Law: a session in the `Daemon` state owns no descriptor any more: both
/// guards were disarmed when their descriptors were duplicated onto the
/// standard slots, so nothing beyond the slots keeps the targets open once
/// the close queue is drained.
pub proof fn lemma_daemon_owns_nothing(s: Session)
    requires
        s.wf(),
        s.state == State::Daemon,
    ensures
        !s.stdout_guard.armed,
        !s.stderr_guard.armed,
        s.owned_count() == 0,
{
}

/// Law: the successful run in mode `ChangeToRoot`, for every pair of valid
/// acquired descriptors. From a fresh session, the steps succeed in exactly
/// the protocol's order — open output, open error, first fork, session
/// creation, hangup disposition, second fork, directory change, output
/// redirection, error redirection — every step but the last answers
/// `Continue`, the last answers `Complete`, and the finished session is a
/// daemon whose working directory was changed, which owns no descriptor any
/// more, and whose close queue holds exactly the two transferred sources
/// (each unless it already occupies a standard output slot).
pub proof fn lemma_canonical_run_change_to_root(
    s0: Session,
    s1: Session,
    s2: Session,
    s3: Session,
    s4: Session,
    s5: Session,
    s6: Session,
    s7: Session,
    s8: Session,
    s9: Session,
    d1: Directive,
    d2: Directive,
    d3: Directive,
    d4: Directive,
    d5: Directive,
    d6: Directive,
    d7: Directive,
    d8: Directive,
    d9: Directive,
    out_fd: i32,
    err_fd: i32,
)
    requires
        s0.wf(),
        s0.state == State::AcquiringStdout,
        s0.mode == DirMode::ChangeToRoot,
        s0.pending_close@.len() == 0,
        out_fd >= 0,
        err_fd >= 0,
        err_fd != out_fd,
        Session::stepped(s0, Event::Opened(out_fd), s1, d1),
        Session::stepped(s1, Event::Opened(err_fd), s2, d2),
        Session::stepped(s2, Event::ForkedChild, s3, d3),
        Session::stepped(s3, Event::SessionCreated, s4, d4),
        Session::stepped(s4, Event::HangupHandled, s5, d5),
        Session::stepped(s5, Event::ForkedChild, s6, d6),
        Session::stepped(s6, Event::DirChanged, s7, d7),
        Session::stepped(s7, Event::Redirected, s8, d8),
        Session::stepped(s8, Event::Redirected, s9, d9),
    ensures
        s1.current_action() == Some(Action::OpenTarget(StreamKind::Stderr)),
        s2.current_action() == Some(Action::Fork),
        s3.current_action() == Some(Action::CreateSession),
        s4.current_action() == Some(Action::IgnoreHangup),
        s5.current_action() == Some(Action::Fork),
        s6.current_action() == Some(Action::ChangeDirToRoot),
        s7.current_action() == Some(Action::Redirect(StreamKind::Stdout, out_fd)),
        s8.current_action() == Some(Action::Redirect(StreamKind::Stderr, err_fd)),
        d1 == Directive::Continue && d2 == Directive::Continue && d3 == Directive::Continue && d4
            == Directive::Continue && d5 == Directive::Continue && d6 == Directive::Continue && d7
            == Directive::Continue && d8 == Directive::Continue,
        d9 == Directive::Complete,
        s9.state == State::Daemon,
        s9.dir_changed,
        s9.owned_count() == 0,
        s9.pending_close@ == transfer_list(s7.stdout_guard) + transfer_list(s8.stderr_guard),
        out_fd != STDOUT_SLOT && out_fd != STDERR_SLOT && err_fd != STDOUT_SLOT && err_fd
            != STDERR_SLOT ==> s9.pending_close@ == seq![out_fd, err_fd],
{
    assert(s8.pending_close@ =~= transfer_list(s7.stdout_guard));
    assert(s9.pending_close@ =~= transfer_list(s7.stdout_guard) + transfer_list(s8.stderr_guard));
    if out_fd != STDOUT_SLOT && out_fd != STDERR_SLOT && err_fd != STDOUT_SLOT && err_fd
        != STDERR_SLOT {
        assert(s9.pending_close@ =~= seq![out_fd, err_fd]);
    }
}

/// Law: the successful run in mode `NoChange`, for every pair of valid
/// acquired descriptors: the same order as in `ChangeToRoot`, except that no
/// directory step ever becomes pending — after the second fork the protocol
/// moves straight to redirection — and the finished daemon's working
/// directory is unaffected.
pub proof fn lemma_canonical_run_no_change(
    s0: Session,
    s1: Session,
    s2: Session,
    s3: Session,
    s4: Session,
    s5: Session,
    s6: Session,
    s7: Session,
    s8: Session,
    d1: Directive,
    d2: Directive,
    d3: Directive,
    d4: Directive,
    d5: Directive,
    d6: Directive,
    d7: Directive,
    d8: Directive,
    out_fd: i32,
    err_fd: i32,
)
    requires
        s0.wf(),
        s0.state == State::AcquiringStdout,
        s0.mode == DirMode::NoChange,
        s0.pending_close@.len() == 0,
        out_fd >= 0,
        err_fd >= 0,
        err_fd != out_fd,
        Session::stepped(s0, Event::Opened(out_fd), s1, d1),
        Session::stepped(s1, Event::Opened(err_fd), s2, d2),
        Session::stepped(s2, Event::ForkedChild, s3, d3),
        Session::stepped(s3, Event::SessionCreated, s4, d4),
        Session::stepped(s4, Event::HangupHandled, s5, d5),
        Session::stepped(s5, Event::ForkedChild, s6, d6),
        Session::stepped(s6, Event::Redirected, s7, d7),
        Session::stepped(s7, Event::Redirected, s8, d8),
    ensures
        s6.current_action() == Some(Action::Redirect(StreamKind::Stdout, out_fd)),
        s7.current_action() == Some(Action::Redirect(StreamKind::Stderr, err_fd)),
        d1 == Directive::Continue && d2 == Directive::Continue && d3 == Directive::Continue && d4
            == Directive::Continue && d5 == Directive::Continue && d6 == Directive::Continue && d7
            == Directive::Continue,
        d8 == Directive::Complete,
        s8.state == State::Daemon,
        !s8.dir_changed,
        s8.owned_count() == 0,
        s8.pending_close@ == transfer_list(s6.stdout_guard) + transfer_list(s7.stderr_guard),
{
    assert(s7.pending_close@ =~= transfer_list(s6.stdout_guard));
    assert(s8.pending_close@ =~= transfer_list(s6.stdout_guard) + transfer_list(s7.stderr_guard));
}

/// Law: the completing step — the error descriptor duplicated onto its slot —
/// disarms the last guard and queues its source descriptor for closing unless
/// that source already occupies a standard output slot. Together with the
/// matching earlier step for standard output, every acquired descriptor ends
/// closed or occupying a standard slot.
pub proof fn lemma_completion_transfers(pre: Session, post: Session, d: Directive)
    requires
        pre.wf(),
        pre.state == State::RedirectingStderr,
        Session::stepped(pre, Event::Redirected, post, d),
    ensures
        post.state == State::Daemon,
        d == Directive::Complete,
        post.owned_count() == 0,
        pre.stderr_guard.fd == STDOUT_SLOT || pre.stderr_guard.fd == STDERR_SLOT
            || post.pending_close@ == pre.pending_close@.push(pre.stderr_guard.fd),
{
    assert(transfer_list(pre.stderr_guard).len() <= 1);
    if pre.stderr_guard.fd != STDOUT_SLOT && pre.stderr_guard.fd != STDERR_SLOT {
        assert(post.pending_close@ =~= pre.pending_close@.push(pre.stderr_guard.fd));
    }
}

} // verus!
