use unix_daemonize::error::Error;
use unix_daemonize::protocol::{Action, DirMode, Directive, Event, Session, State};
use unix_daemonize::target::StreamKind;

/// Drive a fresh session up to (and including) the child branch of the
/// second fork, with targets acquired as descriptors 3 and 4.
fn session_past_second_fork(mode: DirMode) -> Session {
    let mut s = Session::new(mode);
    assert_eq!(s.on_event(Event::Opened(3)), Directive::Continue);
    assert_eq!(s.on_event(Event::Opened(4)), Directive::Continue);
    assert_eq!(s.on_event(Event::ForkedChild), Directive::Continue);
    assert_eq!(s.on_event(Event::SessionCreated), Directive::Continue);
    assert_eq!(s.on_event(Event::HangupHandled), Directive::Continue);
    assert_eq!(s.on_event(Event::ForkedChild), Directive::Continue);
    s
}

#[test]
fn successful_run_change_to_root() {
    let mut s = Session::new(DirMode::ChangeToRoot);
    assert_eq!(s.pending_action(), Some(Action::OpenTarget(StreamKind::Stdout)));
    assert_eq!(s.on_event(Event::Opened(3)), Directive::Continue);
    assert_eq!(s.pending_action(), Some(Action::OpenTarget(StreamKind::Stderr)));
    assert_eq!(s.on_event(Event::Opened(4)), Directive::Continue);
    assert_eq!(s.pending_action(), Some(Action::Fork));
    assert_eq!(s.on_event(Event::ForkedChild), Directive::Continue);
    assert_eq!(s.pending_action(), Some(Action::CreateSession));
    assert_eq!(s.on_event(Event::SessionCreated), Directive::Continue);
    assert_eq!(s.pending_action(), Some(Action::IgnoreHangup));
    assert_eq!(s.on_event(Event::HangupHandled), Directive::Continue);
    assert_eq!(s.pending_action(), Some(Action::Fork));
    assert_eq!(s.on_event(Event::ForkedChild), Directive::Continue);
    assert_eq!(s.pending_action(), Some(Action::ChangeDirToRoot));
    assert_eq!(s.on_event(Event::DirChanged), Directive::Continue);
    assert_eq!(s.pending_action(), Some(Action::Redirect(StreamKind::Stdout, 3)));
    assert_eq!(s.on_event(Event::Redirected), Directive::Continue);
    assert_eq!(s.pending_action(), Some(Action::Redirect(StreamKind::Stderr, 4)));
    assert_eq!(s.on_event(Event::Redirected), Directive::Complete);
    assert_eq!(s.state, State::Daemon);
    assert!(s.dir_changed);
    assert!(!s.stdout_guard.armed);
    assert!(!s.stderr_guard.armed);
    // Both source descriptors were transferred to the standard slots and must
    // now be closed: nothing else keeps the targets open.
    assert_eq!(s.take_closables(), vec![3, 4]);
    assert_eq!(s.pending_action(), None);
}

#[test]
fn successful_run_no_change_skips_directory_step() {
    let mut s = session_past_second_fork(DirMode::NoChange);
    // Straight to redirection: the directory step never becomes pending.
    assert_eq!(s.pending_action(), Some(Action::Redirect(StreamKind::Stdout, 3)));
    assert_eq!(s.on_event(Event::Redirected), Directive::Continue);
    assert_eq!(s.on_event(Event::Redirected), Directive::Complete);
    assert_eq!(s.state, State::Daemon);
    assert!(!s.dir_changed);
    assert_eq!(s.take_closables(), vec![3, 4]);
}

#[test]
fn parent_branch_of_first_fork_exits() {
    let mut s = Session::new(DirMode::ChangeToRoot);
    s.on_event(Event::Opened(3));
    s.on_event(Event::Opened(4));
    assert_eq!(s.on_event(Event::ForkedParent), Directive::ExitParent);
    assert_eq!(s.state, State::ParentBranch);
    assert_eq!(s.pending_action(), None);
    // The parent exits immediately; it closes nothing itself.
    assert_eq!(s.take_closables(), Vec::<i32>::new());
}

#[test]
fn parent_branch_of_second_fork_exits() {
    let mut s = Session::new(DirMode::NoChange);
    s.on_event(Event::Opened(3));
    s.on_event(Event::Opened(4));
    s.on_event(Event::ForkedChild);
    s.on_event(Event::SessionCreated);
    s.on_event(Event::HangupHandled);
    assert_eq!(s.on_event(Event::ForkedParent), Directive::ExitParent);
    assert_eq!(s.state, State::ParentBranch);
}

#[test]
fn open_stdout_failure_closes_nothing() {
    let mut s = Session::new(DirMode::NoChange);
    let d = s.on_event(Event::OpenFailed(Some(13)));
    assert_eq!(d, Directive::Fail(Error::OpenStdout(Some(13))));
    assert_eq!(s.state, State::Failed);
    assert_eq!(s.take_closables(), Vec::<i32>::new());
}

#[test]
fn open_stderr_failure_closes_the_stdout_descriptor() {
    let mut s = Session::new(DirMode::NoChange);
    s.on_event(Event::Opened(3));
    let d = s.on_event(Event::OpenFailed(Some(2)));
    assert_eq!(d, Directive::Fail(Error::OpenStderr(Some(2))));
    assert_eq!(s.take_closables(), vec![3]);
}

#[test]
fn first_fork_failure_closes_both_descriptors() {
    let mut s = Session::new(DirMode::NoChange);
    s.on_event(Event::Opened(3));
    s.on_event(Event::Opened(4));
    let d = s.on_event(Event::ForkFailed(Some(11)));
    assert_eq!(d, Directive::Fail(Error::FirstFork(Some(11))));
    assert_eq!(s.state, State::Failed);
    assert_eq!(s.take_closables(), vec![3, 4]);
    // A second drain finds nothing: everything was handed out once.
    assert_eq!(s.take_closables(), Vec::<i32>::new());
}

#[test]
fn session_failure_closes_both_descriptors() {
    let mut s = Session::new(DirMode::NoChange);
    s.on_event(Event::Opened(3));
    s.on_event(Event::Opened(4));
    s.on_event(Event::ForkedChild);
    let d = s.on_event(Event::SessionFailed(None));
    assert_eq!(d, Directive::Fail(Error::Setsid(None)));
    assert_eq!(s.take_closables(), vec![3, 4]);
}

#[test]
fn second_fork_failure_closes_both_descriptors() {
    let mut s = Session::new(DirMode::NoChange);
    s.on_event(Event::Opened(3));
    s.on_event(Event::Opened(4));
    s.on_event(Event::ForkedChild);
    s.on_event(Event::SessionCreated);
    s.on_event(Event::HangupHandled);
    let d = s.on_event(Event::ForkFailed(Some(11)));
    assert_eq!(d, Directive::Fail(Error::SecondFork(Some(11))));
    assert_eq!(s.take_closables(), vec![3, 4]);
}

#[test]
fn directory_failure_closes_both_descriptors() {
    let mut s = session_past_second_fork(DirMode::ChangeToRoot);
    let d = s.on_event(Event::DirChangeFailed(Some(13)));
    assert_eq!(d, Directive::Fail(Error::Chdir(Some(13))));
    assert!(!s.dir_changed);
    assert_eq!(s.take_closables(), vec![3, 4]);
}

#[test]
fn stdout_duplication_failure_closes_both_descriptors() {
    let mut s = session_past_second_fork(DirMode::NoChange);
    let d = s.on_event(Event::RedirectFailed(Some(9)));
    assert_eq!(d, Directive::Fail(Error::Duplication(Some(9))));
    assert_eq!(s.take_closables(), vec![3, 4]);
}

#[test]
fn stderr_duplication_failure_leaks_neither_descriptor() {
    let mut s = session_past_second_fork(DirMode::NoChange);
    assert_eq!(s.on_event(Event::Redirected), Directive::Continue);
    let d = s.on_event(Event::RedirectFailed(None));
    assert_eq!(d, Directive::Fail(Error::Duplication(None)));
    // Descriptor 3 was already transferred and queued; 4 was still owned.
    assert_eq!(s.take_closables(), vec![3, 4]);
}

#[test]
fn source_in_a_standard_slot_is_not_closed() {
    let mut s = Session::new(DirMode::NoChange);
    s.on_event(Event::Opened(1));
    s.on_event(Event::Opened(2));
    s.on_event(Event::ForkedChild);
    s.on_event(Event::SessionCreated);
    s.on_event(Event::HangupHandled);
    s.on_event(Event::ForkedChild);
    assert_eq!(s.on_event(Event::Redirected), Directive::Continue);
    assert_eq!(s.on_event(Event::Redirected), Directive::Complete);
    // The sources already occupy the standard slots: closing them would
    // close the redirected streams themselves.
    assert_eq!(s.take_closables(), Vec::<i32>::new());
}

#[test]
fn closables_are_drained_between_steps() {
    let mut s = session_past_second_fork(DirMode::NoChange);
    s.on_event(Event::Redirected);
    assert_eq!(s.take_closables(), vec![3]);
    s.on_event(Event::Redirected);
    assert_eq!(s.take_closables(), vec![4]);
    assert_eq!(s.state, State::Daemon);
}
