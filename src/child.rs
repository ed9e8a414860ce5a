//! The state of an interactive child process handle.
use crate::error::{IoFailure, ProcessError, Stream};
use crate::exec::ExitStatus;
use vstd::prelude::*;

verus! {

/// What a handle knows of its process: the exit status once the exit has
/// been observed, and whether the stdin pipe is still open for writing.
#[derive(Clone, Copy, Debug, PartialEq, Eq, Structural)]
pub struct ChildModel {
    pub status: Option<ExitStatus>,
    pub stdin_open: bool,
}

/// The state of an interactive handle. It moves from running to exited once,
/// and keeps the first exit status it was given.
pub struct ChildHandle {
    status: Option<ExitStatus>,
    stdin_open: bool,
}

impl View for ChildHandle {
    type V = ChildModel;

    closed spec fn view(&self) -> ChildModel {
        ChildModel { status: self.status, stdin_open: self.stdin_open }
    }
}

/// The model after the OS reported `reported`: a running process becomes
/// exited with that status and its stdin closes; an exited one is unchanged.
pub open spec fn exit_recorded(m: ChildModel, reported: ExitStatus) -> ChildModel {
    match m.status {
        Some(_) => m,
        None => ChildModel { status: Some(reported), stdin_open: false },
    }
}

/// The status a wait returns once the OS reported `reported`.
pub open spec fn waited_status(m: ChildModel, reported: ExitStatus) -> ExitStatus {
    match m.status {
        Some(s) => s,
        None => reported,
    }
}

/// Whether a write to stdin may proceed, and otherwise why not.
pub open spec fn write_check(m: ChildModel) -> Result<(), ProcessError> {
    if m.status is Some {
        Err(ProcessError::ProcessAlreadyExited)
    } else if !m.stdin_open {
        Err(ProcessError::StdinClosed)
    } else {
        Ok(())
    }
}

/// What the next wait has to do.
#[derive(Clone, Copy, Debug, PartialEq, Eq, Structural)]
pub enum WaitStep {
    /// The exit was already observed: return this status.
    Cached(ExitStatus),
    /// Suspend until the OS reports the exit, then record it.
    AwaitExit,
}

impl ChildHandle {
    /// A handle on a process that was just spawned; `stdin_piped` tells
    /// whether its stdin is a pipe the handle may write to.
    pub fn new(stdin_piped: bool) -> (r: ChildHandle)
        ensures
            r@ == (ChildModel { status: None, stdin_open: stdin_piped }),
    {
        ChildHandle { status: None, stdin_open: stdin_piped }
    }

    /// The cached exit status, if the exit was observed.
    pub fn status(&self) -> (r: Option<ExitStatus>)
        ensures
            r == self@.status,
    {
        self.status
    }

    /// Whether the process is still running as far as the handle knows.
    pub fn is_running(&self) -> (r: bool)
        ensures
            r == (self@.status is None),
    {
        self.status.is_none()
    }

    /// Whether stdin is still open for writing.
    pub fn stdin_open(&self) -> (r: bool)
        ensures
            r == self@.stdin_open,
    {
        self.stdin_open
    }

    /// What a wait has to do: return the cached status, or wait on the OS.
    pub fn wait_step(&self) -> (r: WaitStep)
        ensures
            self@.status matches Some(s) ==> r == WaitStep::Cached(s),
            self@.status is None ==> r == WaitStep::AwaitExit,
    {
        match self.status {
            Some(s) => WaitStep::Cached(s),
            None => WaitStep::AwaitExit,
        }
    }

    /// Records that the OS reported the exit with `reported`, and returns the
    /// status that waits report from now on: the first one recorded.
    pub fn record_exit(&mut self, reported: ExitStatus) -> (r: ExitStatus)
        ensures
            final(self)@ == exit_recorded(old(self)@, reported),
            r == waited_status(old(self)@, reported),
            final(self)@.status == Some(r),
    {
        match self.status {
            Some(s) => s,
            None => {
                self.status = Some(reported);
                self.stdin_open = false;
                reported
            },
        }
    }

    /// Checks that a write to stdin may proceed.
    pub fn check_write(&self) -> (r: Result<(), ProcessError>)
        ensures
            r == write_check(self@),
    {
        if self.status.is_some() {
            Err(ProcessError::ProcessAlreadyExited)
        } else if !self.stdin_open {
            Err(ProcessError::StdinClosed)
        } else {
            Ok(())
        }
    }

    /// Closes stdin, which signals end of input to the process.
    pub fn close_stdin(&mut self)
        ensures
            final(self)@ == (ChildModel { stdin_open: false, ..old(self)@ }),
    {
        self.stdin_open = false;
    }

    /// Records a failed write to stdin. A broken pipe means the process
    /// closed its end: stdin is closed and the write reports `StdinClosed`.
    /// Any other failure is reported on stdin and changes nothing.
    pub fn write_failed(&mut self, failure: IoFailure) -> (r: ProcessError)
        ensures
            failure == IoFailure::BrokenPipe ==> r == ProcessError::StdinClosed && final(self)@ == (
            ChildModel { stdin_open: false, ..old(self)@ }),
            failure != IoFailure::BrokenPipe ==> r == ProcessError::Io(Stream::Stdin, failure)
                && final(self)@ == old(self)@,
    {
        match failure {
            IoFailure::BrokenPipe => {
                self.stdin_open = false;
                ProcessError::StdinClosed
            },
            IoFailure::Other => ProcessError::Io(Stream::Stdin, failure),
        }
    }

    /// Whether a kill request should reach the OS: only while running.
    pub fn should_kill(&self) -> (r: bool)
        ensures
            r == (self@.status is None),
    {
        self.status.is_none()
    }
}

/// Once the exit was recorded, two waits report the same status, whatever
/// the OS reports to each.
pub proof fn lemma_wait_idempotent(m: ChildModel, first: ExitStatus, second: ExitStatus)
    ensures
        waited_status(exit_recorded(m, first), second) == waited_status(m, first),
        exit_recorded(exit_recorded(m, first), second) == exit_recorded(m, first),
{
}

/// After the exit was recorded, a write to stdin fails with
/// `ProcessAlreadyExited`.
pub proof fn lemma_write_after_exit_fails(m: ChildModel, reported: ExitStatus)
    ensures
        write_check(exit_recorded(m, reported)) == Err::<(), ProcessError>(
            ProcessError::ProcessAlreadyExited,
        ),
{
}

} // verus!
