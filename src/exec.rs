//! Assembling the result of a run-to-completion execution.
use crate::error::{IoFailure, ProcessError, Stream};
use crate::stdio::{StdinSetup, StdioPolicy};
use vstd::prelude::*;

verus! {

/// How the OS reported the end of a process.
#[derive(Clone, Copy, Debug, PartialEq, Eq, Structural)]
pub enum ExitStatus {
    /// The process exited with this code.
    Code(i32),
    /// The process was ended by this signal.
    Signaled(i32),
    /// The OS gave neither a code nor a signal.
    Unknown,
}

/// The outcome of running a process to completion.
#[derive(Debug)]
pub struct ExecutionResult {
    /// Whether the process exited with code 0.
    pub ok: bool,
    /// The exit code; 1 when the process did not exit with a code.
    pub code: i32,
    /// Everything the process wrote to stdout, when stdout was piped.
    pub stdout: Vec<u8>,
    /// Everything the process wrote to stderr, when stderr was piped.
    pub stderr: Vec<u8>,
}

/// The code reported to the host for an exit status.
pub open spec fn exit_code(s: ExitStatus) -> i32 {
    match s {
        ExitStatus::Code(c) => c,
        _ => 1,
    }
}

/// Whether an exit status counts as success.
pub open spec fn succeeded(s: ExitStatus) -> bool {
    s == ExitStatus::Code(0)
}

/// The bytes reported for a stream: what was drained if it was piped,
/// nothing otherwise.
pub open spec fn captured(policy: StdioPolicy, drained: Seq<u8>) -> Seq<u8> {
    if policy == StdioPolicy::Piped {
        drained
    } else {
        Seq::empty()
    }
}

impl ExitStatus {
    /// The code reported to the host.
    pub fn code(self) -> (r: i32)
        ensures
            r == exit_code(self),
    {
        match self {
            ExitStatus::Code(c) => c,
            _ => 1,
        }
    }

    /// Whether the process exited with code 0.
    pub fn success(self) -> (r: bool)
        ensures
            r == succeeded(self),
    {
        match self {
            ExitStatus::Code(c) => c == 0,
            _ => false,
        }
    }
}

/// Builds the result once the process has exited and every piped stream has
/// been drained to its end. Bytes drained from a stream that was not piped
/// are not reported.
pub fn finish_execution(
    status: ExitStatus,
    stdout_policy: StdioPolicy,
    stdout: Vec<u8>,
    stderr_policy: StdioPolicy,
    stderr: Vec<u8>,
) -> (r: ExecutionResult)
    ensures
        r.ok == succeeded(status),
        r.code == exit_code(status),
        r.stdout@ == captured(stdout_policy, stdout@),
        r.stderr@ == captured(stderr_policy, stderr@),
{
    let out = match stdout_policy {
        StdioPolicy::Piped => stdout,
        _ => Vec::new(),
    };
    let err = match stderr_policy {
        StdioPolicy::Piped => stderr,
        _ => Vec::new(),
    };
    ExecutionResult { ok: status.success(), code: status.code(), stdout: out, stderr: err }
}

/// Whether a failure on a stream during a run to completion is tolerated.
pub open spec fn tolerated(stream: Stream, failure: IoFailure) -> bool {
    stream == Stream::Stdin && failure == IoFailure::BrokenPipe
}

/// Decides what a failure on one of the streams of a run to completion does:
/// a broken pipe on stdin only ends the writing of the payload; any other
/// failure ends the run with an error naming the stream.
pub fn stream_failure(stream: Stream, failure: IoFailure) -> (r: Result<(), ProcessError>)
    ensures
        tolerated(stream, failure) ==> r is Ok,
        !tolerated(stream, failure) ==> r == Err::<(), ProcessError>(ProcessError::Io(stream, failure)),
{
    match (stream, failure) {
        (Stream::Stdin, IoFailure::BrokenPipe) => Ok(()),
        _ => Err(ProcessError::Io(stream, failure)),
    }
}

/// An event of a run to completion, as the stream pumps and the OS report it.
#[derive(Debug)]
pub enum ExecEvent {
    /// The stdin payload was written in full and the pipe closed.
    StdinWritten,
    /// Bytes read from a stream.
    Read(Stream, Vec<u8>),
    /// A stream reached its end.
    Eof(Stream),
    /// An operation on a stream failed.
    Failed(Stream, IoFailure),
    /// The process exited.
    Exited(ExitStatus),
}

/// What a run to completion waits for next.
#[derive(Clone, Copy, Debug, PartialEq, Eq, Structural)]
pub enum ExecStep {
    /// At least one stream still has work: keep pumping.
    AwaitStreams,
    /// Every stream is done: wait for the process to exit.
    AwaitExit,
    /// The process exited and every stream is done: build the result.
    Finish,
}

/// The state of a run to completion.
pub struct ExecModel {
    pub stdout_policy: StdioPolicy,
    pub stderr_policy: StdioPolicy,
    /// The stdin payload is still being written.
    pub stdin_active: bool,
    /// stdout is piped and has not reached its end.
    pub stdout_active: bool,
    /// stderr is piped and has not reached its end.
    pub stderr_active: bool,
    pub stdout: Seq<u8>,
    pub stderr: Seq<u8>,
    pub status: Option<ExitStatus>,
}

/// A run to completion in progress: which streams still have work, what was
/// drained so far, and the exit status once reported.
pub struct Execution {
    stdout_policy: StdioPolicy,
    stderr_policy: StdioPolicy,
    stdin_active: bool,
    stdout_active: bool,
    stderr_active: bool,
    stdout: Vec<u8>,
    stderr: Vec<u8>,
    status: Option<ExitStatus>,
}

impl View for Execution {
    type V = ExecModel;

    closed spec fn view(&self) -> ExecModel {
        ExecModel {
            stdout_policy: self.stdout_policy,
            stderr_policy: self.stderr_policy,
            stdin_active: self.stdin_active,
            stdout_active: self.stdout_active,
            stderr_active: self.stderr_active,
            stdout: self.stdout@,
            stderr: self.stderr@,
            status: self.status,
        }
    }
}

/// Whether a stdin setup leaves a payload to write.
pub open spec fn has_payload(stdin: StdinSetup) -> bool {
    stdin matches StdinSetup::Piped(Some(_))
}

/// The next step of a run in state `m`.
pub open spec fn next_step(m: ExecModel) -> ExecStep {
    if m.stdin_active || m.stdout_active || m.stderr_active {
        ExecStep::AwaitStreams
    } else if m.status is None {
        ExecStep::AwaitExit
    } else {
        ExecStep::Finish
    }
}

/// The stream `s` stops having work.
pub open spec fn stream_done(m: ExecModel, s: Stream) -> ExecModel {
    match s {
        Stream::Stdin => ExecModel { stdin_active: false, ..m },
        Stream::Stdout => ExecModel { stdout_active: false, ..m },
        Stream::Stderr => ExecModel { stderr_active: false, ..m },
    }
}

/// The state after event `e`. Bytes are kept only for a stream that is still
/// active; the first exit status reported is kept.
pub open spec fn after_event(m: ExecModel, e: ExecEvent) -> ExecModel {
    match e {
        ExecEvent::StdinWritten => ExecModel { stdin_active: false, ..m },
        ExecEvent::Read(Stream::Stdout, b) => if m.stdout_active {
            ExecModel { stdout: m.stdout + b@, ..m }
        } else {
            m
        },
        ExecEvent::Read(Stream::Stderr, b) => if m.stderr_active {
            ExecModel { stderr: m.stderr + b@, ..m }
        } else {
            m
        },
        ExecEvent::Read(Stream::Stdin, _) => m,
        ExecEvent::Eof(s) => stream_done(m, s),
        ExecEvent::Failed(s, _) => stream_done(m, s),
        ExecEvent::Exited(st) => if m.status is None {
            ExecModel { status: Some(st), ..m }
        } else {
            m
        },
    }
}

/// The error, if any, that event `e` ends the run with.
pub open spec fn event_error(e: ExecEvent) -> Option<ProcessError> {
    match e {
        ExecEvent::Failed(s, f) => if tolerated(s, f) {
            None
        } else {
            Some(ProcessError::Io(s, f))
        },
        _ => None,
    }
}

/// The state after a sequence of events, none of which ended the run.
pub open spec fn after_events(m: ExecModel, es: Seq<ExecEvent>) -> ExecModel
    decreases es.len(),
{
    if es.len() == 0 {
        m
    } else {
        after_event(after_events(m, es.drop_last()), es.last())
    }
}

/// The bytes that the stdout reads among `es` carry, in order.
pub open spec fn stdout_bytes(es: Seq<ExecEvent>) -> Seq<u8>
    decreases es.len(),
{
    if es.len() == 0 {
        Seq::empty()
    } else {
        match es.last() {
            ExecEvent::Read(Stream::Stdout, b) => stdout_bytes(es.drop_last()) + b@,
            _ => stdout_bytes(es.drop_last()),
        }
    }
}

/// `e` neither ends stdout nor reports the exit: it may come from the
/// stdin pump, the stderr pump, or carry stdout bytes.
pub open spec fn mid_run(e: ExecEvent) -> bool {
    match e {
        ExecEvent::Eof(Stream::Stdout) => false,
        ExecEvent::Failed(Stream::Stdout, _) => false,
        ExecEvent::Exited(_) => false,
        _ => true,
    }
}

impl Execution {
    /// A run that was just spawned with the given stdio setup.
    pub fn start(stdin: &StdinSetup, stdout_policy: StdioPolicy, stderr_policy: StdioPolicy) -> (r:
        Execution)
        ensures
            r@.stdout_policy == stdout_policy,
            r@.stderr_policy == stderr_policy,
            r@.stdin_active == has_payload(*stdin),
            r@.stdout_active == (stdout_policy == StdioPolicy::Piped),
            r@.stderr_active == (stderr_policy == StdioPolicy::Piped),
            r@.stdout.len() == 0,
            r@.stderr.len() == 0,
            r@.status is None,
    {
        let stdin_active = match stdin {
            StdinSetup::Piped(Some(_)) => true,
            _ => false,
        };
        Execution {
            stdout_policy,
            stderr_policy,
            stdin_active,
            stdout_active: stdout_policy == StdioPolicy::Piped,
            stderr_active: stderr_policy == StdioPolicy::Piped,
            stdout: Vec::new(),
            stderr: Vec::new(),
            status: None,
        }
    }

    /// What the run waits for next.
    pub fn step(&self) -> (r: ExecStep)
        ensures
            r == next_step(self@),
    {
        if self.stdin_active || self.stdout_active || self.stderr_active {
            ExecStep::AwaitStreams
        } else if self.status.is_none() {
            ExecStep::AwaitExit
        } else {
            ExecStep::Finish
        }
    }

    /// Takes in one event. A failure other than a broken pipe on stdin ends
    /// the run with an error that names the stream.
    pub fn on_event(&mut self, e: ExecEvent) -> (r: Result<(), ProcessError>)
        ensures
            final(self)@ == after_event(old(self)@, e),
            event_error(e) matches Some(err) ==> r == Err::<(), ProcessError>(err),
            event_error(e) is None ==> r is Ok,
    {
        match e {
            ExecEvent::StdinWritten => {
                self.stdin_active = false;
                Ok(())
            },
            ExecEvent::Read(stream, bytes) => {
                let mut bytes = bytes;
                match stream {
                    Stream::Stdout => {
                        if self.stdout_active {
                            self.stdout.append(&mut bytes);
                        }
                    },
                    Stream::Stderr => {
                        if self.stderr_active {
                            self.stderr.append(&mut bytes);
                        }
                    },
                    Stream::Stdin => {},
                }
                Ok(())
            },
            ExecEvent::Eof(stream) => {
                self.mark_done(stream);
                Ok(())
            },
            ExecEvent::Failed(stream, failure) => {
                self.mark_done(stream);
                stream_failure(stream, failure)
            },
            ExecEvent::Exited(st) => {
                if self.status.is_none() {
                    self.status = Some(st);
                }
                Ok(())
            },
        }
    }

    fn mark_done(&mut self, s: Stream)
        ensures
            final(self)@ == stream_done(old(self)@, s),
    {
        match s {
            Stream::Stdin => self.stdin_active = false,
            Stream::Stdout => self.stdout_active = false,
            Stream::Stderr => self.stderr_active = false,
        }
    }

    /// Builds the result of a run whose process exited and whose streams are
    /// all done.
    pub fn finish(self) -> (r: ExecutionResult)
        requires
            next_step(self@) == ExecStep::Finish,
        ensures
            self@.status matches Some(st) && r.ok == succeeded(st) && r.code == exit_code(st),
            r.stdout@ == captured(self@.stdout_policy, self@.stdout),
            r.stderr@ == captured(self@.stderr_policy, self@.stderr),
    {
        let status = match self.status {
            Some(st) => st,
            None => ExitStatus::Unknown,
        };
        finish_execution(status, self.stdout_policy, self.stdout, self.stderr_policy, self.stderr)
    }
}

/// While stdout is active, a run keeps every byte read from stdout, in
/// order and after what it held, whatever the other streams do.
pub proof fn lemma_stdout_accumulates(m: ExecModel, es: Seq<ExecEvent>)
    requires
        m.stdout_active,
        forall|i: int| 0 <= i < es.len() ==> mid_run(#[trigger] es[i]),
    ensures
        after_events(m, es).stdout_active,
        after_events(m, es).stdout == m.stdout + stdout_bytes(es),
        after_events(m, es).stdout_policy == m.stdout_policy,
        after_events(m, es).status == m.status,
    decreases es.len(),
{
    if es.len() == 0 {
        assert(m.stdout + Seq::<u8>::empty() =~= m.stdout);
    } else {
        let init = es.drop_last();
        assert forall|i: int| 0 <= i < init.len() implies mid_run(#[trigger] init[i]) by {
            assert(init[i] == es[i]);
        }
        lemma_stdout_accumulates(m, init);
        assert(mid_run(es[es.len() - 1]));
        match es.last() {
            ExecEvent::Read(Stream::Stdout, b) => {
                assert(m.stdout + stdout_bytes(init) + b@ =~= m.stdout + (stdout_bytes(init) + b@));
            },
            _ => {},
        }
    }
}

/// A run whose stdout is piped, with any policy for stdin and stderr: when
/// stdout has been read in any chunks, amid any work on the other streams,
/// and then the stdin payload is written, stderr and stdout end, and the
/// process exits with `status`, the run finishes with that status and with
/// exactly the bytes read from stdout.
pub proof fn lemma_piped_stdout_round_trip(m: ExecModel, es: Seq<ExecEvent>, status: ExitStatus)
    requires
        m.stdout_policy == StdioPolicy::Piped,
        m.stdout_active,
        m.stdout.len() == 0,
        m.status is None,
        forall|i: int| 0 <= i < es.len() ==> mid_run(#[trigger] es[i]),
    ensures
        ({
            let end = after_events(
                m,
                es.push(ExecEvent::StdinWritten).push(ExecEvent::Eof(Stream::Stderr)).push(
                    ExecEvent::Eof(Stream::Stdout),
                ).push(ExecEvent::Exited(status)),
            );
            &&& next_step(end) == ExecStep::Finish
            &&& end.status == Some(status)
            &&& captured(end.stdout_policy, end.stdout) == stdout_bytes(es)
        }),
{
    lemma_stdout_accumulates(m, es);
    let a = es.push(ExecEvent::StdinWritten);
    let b = a.push(ExecEvent::Eof(Stream::Stderr));
    let c = b.push(ExecEvent::Eof(Stream::Stdout));
    let d = c.push(ExecEvent::Exited(status));
    assert(a.drop_last() =~= es);
    assert(b.drop_last() =~= a);
    assert(c.drop_last() =~= b);
    assert(d.drop_last() =~= c);
    assert(after_events(m, a) == after_event(after_events(m, es), ExecEvent::StdinWritten));
    assert(after_events(m, b) == after_event(after_events(m, a), ExecEvent::Eof(Stream::Stderr)));
    assert(after_events(m, c) == after_event(after_events(m, b), ExecEvent::Eof(Stream::Stdout)));
    assert(after_events(m, d) == after_event(after_events(m, c), ExecEvent::Exited(status)));
    assert(Seq::<u8>::empty() + stdout_bytes(es) =~= stdout_bytes(es));
}

} // verus!
