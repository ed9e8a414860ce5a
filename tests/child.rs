use lune_std_process::child::{ChildHandle, WaitStep};
use lune_std_process::error::{IoFailure, ProcessError, Stream};
use lune_std_process::exec::ExitStatus;

#[test]
fn wait_twice_returns_cached_status() {
    let mut h = ChildHandle::new(true);
    assert_eq!(h.wait_step(), WaitStep::AwaitExit);
    assert_eq!(h.record_exit(ExitStatus::Code(4)), ExitStatus::Code(4));
    assert_eq!(h.wait_step(), WaitStep::Cached(ExitStatus::Code(4)));
    assert_eq!(h.record_exit(ExitStatus::Code(0)), ExitStatus::Code(4));
    assert_eq!(h.status(), Some(ExitStatus::Code(4)));
    assert!(!h.is_running());
}

#[test]
fn write_after_exit_fails() {
    let mut h = ChildHandle::new(true);
    assert_eq!(h.check_write(), Ok(()));
    h.record_exit(ExitStatus::Signaled(9));
    assert_eq!(h.check_write(), Err(ProcessError::ProcessAlreadyExited));
    assert!(!h.stdin_open());
    assert!(!h.should_kill());
}

#[test]
fn write_after_close_fails() {
    let mut h = ChildHandle::new(true);
    h.close_stdin();
    assert_eq!(h.check_write(), Err(ProcessError::StdinClosed));
    assert!(h.is_running());
    assert!(h.should_kill());
}

#[test]
fn unpiped_stdin_cannot_be_written() {
    let h = ChildHandle::new(false);
    assert_eq!(h.check_write(), Err(ProcessError::StdinClosed));
}

#[test]
fn broken_pipe_closes_stdin() {
    let mut h = ChildHandle::new(true);
    assert_eq!(h.write_failed(IoFailure::BrokenPipe), ProcessError::StdinClosed);
    assert!(!h.stdin_open());
    assert_eq!(h.check_write(), Err(ProcessError::StdinClosed));
}

#[test]
fn other_write_failure_keeps_stdin() {
    let mut h = ChildHandle::new(true);
    assert_eq!(h.write_failed(IoFailure::Other), ProcessError::Io(Stream::Stdin, IoFailure::Other));
    assert!(h.stdin_open());
    assert_eq!(h.check_write(), Ok(()));
}
