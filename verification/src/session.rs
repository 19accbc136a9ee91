//! The session state machine: one bidirectional command stream bound to one
//! workspace and one sandbox.
//!
//! A session is **Open** while it accepts commands, **Draining** once no
//! more commands will be read but in-flight work may still finish, and
//! **Closed** after its workspace has been handed over for removal. The
//! machine itself performs no I/O: [`Session::step`] consumes one event and
//! returns one [`Directive`] for the surrounding loop to carry out, and the
//! outcome builders turn what the loop observed into the one outgoing
//! message owed for the command. Per-command failures never terminate a
//! session; only transport-level events do.

use vstd::prelude::*;

use crate::paths::check_path_safe;
use crate::paths::join_path;
use crate::paths::path_is_safe;
use crate::paths::slash_join;
use crate::sandbox::derived_wall_seconds;
use crate::sandbox::plan_run;
use crate::sandbox::ExecRequest;
use crate::sandbox::RunLimits;
use crate::types::RunOutput;
use crate::types::RunStatus;

verus! {

/// One decoded client command.
pub enum Command {
    /// Store `content` under the relative `filename` in the workspace.
    Put { filename: String, content: Vec<u8> },
    /// Run a shell command, optionally limited and fed on stdin.
    Run { command: String, limits: Option<RunLimits>, input: Option<Vec<u8>> },
    /// Read the file at the relative `filename` back.
    Get { filename: String },
}

/// The class of an error sent instead of a normal response.
#[derive(Clone, Copy, Debug, PartialEq, Eq, Structural)]
pub enum ErrorKind {
    /// The request was malformed; the session continues.
    InvalidArgument,
    /// A workspace operation failed; the session continues.
    Internal,
}

/// An error sent to the client in place of a normal response.
#[derive(Debug)]
pub struct ErrorReply {
    pub kind: ErrorKind,
    pub message: String,
}

/// One normal response; each command is answered by exactly one.
#[derive(Debug)]
pub enum Response {
    /// Answer to `Put`: how many bytes were stored.
    Put { length: u32 },
    /// Answer to `Run`: captured output and accounting. `status` is the
    /// wire code of the run's [`RunStatus`].
    Run {
        stdout: Vec<u8>,
        stderr: Vec<u8>,
        status: u32,
        runtime: u64,
        memory: u64,
        exit_code: Option<i32>,
    },
    /// Answer to `Get`: the file's content.
    Get { content: Vec<u8> },
}

/// One message owed to the client: a normal response or an error.
#[derive(Debug)]
pub enum Outgoing {
    Success(Response),
    Failure(ErrorReply),
}

/// What the surrounding loop must do next. The three I/O directives each
/// owe the client exactly one message, produced by the matching outcome
/// builder once the operation has been attempted.
#[derive(Debug)]
pub enum Directive {
    /// Write `content` to the absolute `path`, then answer with
    /// [`put_outcome`].
    WriteFile { path: String, content: Vec<u8> },
    /// Execute the request in the sandbox, then answer with
    /// [`run_outcome`].
    Execute { request: ExecRequest },
    /// Read the absolute `path`, then answer with [`get_outcome`].
    ReadFile { path: String },
    /// Send this error as the one message owed for the current command.
    Refuse { error: ErrorReply },
    /// Forward the inbound transport error to the client unchanged.
    ForwardError,
    /// Remove the workspace directory; emitted exactly once per session.
    Cleanup,
    /// Nothing to do.
    Idle,
}

/// Lifecycle of a session.
#[derive(Clone, Copy, Debug, PartialEq, Eq, Structural)]
pub enum SessionState {
    /// Accepting commands, one at a time.
    Open,
    /// No more commands are read; in-flight work may finish.
    Draining,
    /// The workspace has been handed over for removal; nothing more
    /// happens.
    Closed,
}

/// One observation made by the surrounding loop.
pub enum Event {
    /// A request arrived; `None` when it lacked a command payload.
    Request { command: Option<Command> },
    /// The inbound stream failed.
    InboundError { broken_pipe: bool },
    /// The client closed its sending half.
    InboundClosed,
    /// A message could not be delivered: the outbound channel is gone.
    SendFailed,
    /// All in-flight work has finished and its messages are out.
    Drained,
}

/// The shape of an event, as far as the lifecycle is concerned.
#[derive(Clone, Copy, Debug, PartialEq, Eq, Structural)]
pub enum EvKind {
    Cmd,
    CmdMissing,
    InboundBrokenPipe,
    InboundOtherError,
    InboundClosed,
    SendFailed,
    Drained,
}

pub open spec fn event_kind(ev: &Event) -> EvKind {
    match ev {
        Event::Request { command: Some(_) } => EvKind::Cmd,
        Event::Request { command: None } => EvKind::CmdMissing,
        Event::InboundError { broken_pipe } => if *broken_pipe {
            EvKind::InboundBrokenPipe
        } else {
            EvKind::InboundOtherError
        },
        Event::InboundClosed => EvKind::InboundClosed,
        Event::SendFailed => EvKind::SendFailed,
        Event::Drained => EvKind::Drained,
    }
}

/// The lifecycle transition relation. Commands keep the session open;
/// the client closing its half, an undeliverable message, or an inbound
/// error that is forwarded starts draining; a broken pipe closes at
/// once; `Closed` is absorbing.
pub open spec fn next_state(s: SessionState, k: EvKind) -> SessionState {
    match s {
        SessionState::Open => match k {
            EvKind::InboundBrokenPipe => SessionState::Closed,
            EvKind::InboundOtherError => SessionState::Draining,
            EvKind::InboundClosed => SessionState::Draining,
            EvKind::SendFailed => SessionState::Draining,
            _ => SessionState::Open,
        },
        SessionState::Draining => if k == EvKind::Drained {
            SessionState::Closed
        } else {
            SessionState::Draining
        },
        SessionState::Closed => SessionState::Closed,
    }
}

/// A step hands the workspace over for removal exactly when it is the one
/// that closes the session.
pub open spec fn step_cleans(s: SessionState, k: EvKind) -> bool {
    s != SessionState::Closed && next_state(s, k) == SessionState::Closed
}

/// A step owes the client a message for a command exactly when a request
/// arrives while the session is open.
pub open spec fn step_responds(s: SessionState, k: EvKind) -> bool {
    s == SessionState::Open && (k == EvKind::Cmd || k == EvKind::CmdMissing)
}

/// Whether a directive produces exactly one message owed for the current
/// command.
pub open spec fn directive_responds(d: &Directive) -> bool {
    ||| d is WriteFile
    ||| d is Execute
    ||| d is ReadFile
    ||| d is Refuse
}

/// One session: its workspace root on the host and its lifecycle state.
pub struct Session {
    /// Absolute host path of this session's workspace directory.
    pub root: String,
    pub state: SessionState,
}

impl Session {
    /// Opens a session whose workspace is `base/id`.
    pub fn new(base: &str, id: &str) -> (s: Session)
        ensures
            s.state == SessionState::Open,
            s.root@ == slash_join(base@, id@),
    {
        Session { root: join_path(base, id), state: SessionState::Open }
    }

    /// Consumes one event and decides what the surrounding loop does
    /// next.
    ///
    /// While open: a `Put` or `Get` whose filename is safe is resolved to
    /// an absolute path under this session's root; an unsafe filename is
    /// refused without touching the filesystem; a `Run` is resolved to a
    /// full [`ExecRequest`]; a payload-less request is refused as
    /// invalid. An inbound error that is not a broken pipe is forwarded
    /// once and the session then drains. Transport-terminal events drive
    /// the lifecycle, and the step that closes the session is the one
    /// that emits [`Directive::Cleanup`] — never a second one.
    pub fn step(&mut self, ev: Event) -> (d: Directive)
        ensures
            final(self).root@ == old(self).root@,
            final(self).state == next_state(old(self).state, event_kind(&ev)),
            (d is Cleanup) == step_cleans(old(self).state, event_kind(&ev)),
            step_responds(old(self).state, event_kind(&ev)) ==> directive_responds(&d),
            old(self).state != SessionState::Open ==> (d is Cleanup || d is Idle),
            old(self).state == SessionState::Open ==> (ev matches Event::Request {
                command: Some(Command::Put { filename, content }),
            } ==> (path_is_safe(filename@) ==> (d matches Directive::WriteFile {
                path,
                content: written,
            } && path@ == slash_join(old(self).root@, filename@) && written@ == content@))),
            old(self).state == SessionState::Open ==> (ev matches Event::Request {
                command: Some(Command::Put { filename, content }),
            } ==> (!path_is_safe(filename@) ==> (d matches Directive::Refuse { error }
                && error.kind == ErrorKind::Internal && error.message@
                == "Failed to put file: invalid file path"@))),
            old(self).state == SessionState::Open ==> (ev matches Event::Request {
                command: Some(Command::Run { command, limits, input }),
            } ==> (d matches Directive::Execute { request } && planned_for(
                request,
                command,
                limits,
                input,
            ))),
            old(self).state == SessionState::Open ==> (ev matches Event::Request {
                command: Some(Command::Get { filename }),
            } ==> (path_is_safe(filename@) ==> (d matches Directive::ReadFile { path } && path@
                == slash_join(old(self).root@, filename@)))),
            old(self).state == SessionState::Open ==> (ev matches Event::Request {
                command: Some(Command::Get { filename }),
            } ==> (!path_is_safe(filename@) ==> (d matches Directive::Refuse { error }
                && error.kind == ErrorKind::Internal && error.message@
                == "Failed to get file: invalid file path"@))),
            old(self).state == SessionState::Open ==> (ev matches Event::Request { command: None }
                ==> (d matches Directive::Refuse { error } && error.kind
                == ErrorKind::InvalidArgument && error.message@
                == "CommandRequest must contain a command"@)),
            old(self).state == SessionState::Open ==> (ev matches Event::InboundError {
                broken_pipe: false,
            } ==> d is ForwardError),
    {
        match self.state {
            SessionState::Open => match ev {
                Event::Request { command } => match command {
                    Some(Command::Put { filename, content }) => {
                        if check_path_safe(filename.as_str()) {
                            let path = join_path(self.root.as_str(), filename.as_str());
                            Directive::WriteFile { path, content }
                        } else {
                            Directive::Refuse {
                                error: ErrorReply {
                                    kind: ErrorKind::Internal,
                                    message: String::from_str(
                                        "Failed to put file: invalid file path",
                                    ),
                                },
                            }
                        }
                    },
                    Some(Command::Run { command, limits, input }) => {
                        Directive::Execute { request: plan_run(command, limits, input) }
                    },
                    Some(Command::Get { filename }) => {
                        if check_path_safe(filename.as_str()) {
                            let path = join_path(self.root.as_str(), filename.as_str());
                            Directive::ReadFile { path }
                        } else {
                            Directive::Refuse {
                                error: ErrorReply {
                                    kind: ErrorKind::Internal,
                                    message: String::from_str(
                                        "Failed to get file: invalid file path",
                                    ),
                                },
                            }
                        }
                    },
                    None => Directive::Refuse {
                        error: ErrorReply {
                            kind: ErrorKind::InvalidArgument,
                            message: String::from_str("CommandRequest must contain a command"),
                        },
                    },
                },
                Event::InboundError { broken_pipe } => {
                    if broken_pipe {
                        self.state = SessionState::Closed;
                        Directive::Cleanup
                    } else {
                        self.state = SessionState::Draining;
                        Directive::ForwardError
                    }
                },
                Event::InboundClosed => {
                    self.state = SessionState::Draining;
                    Directive::Idle
                },
                Event::SendFailed => {
                    self.state = SessionState::Draining;
                    Directive::Idle
                },
                Event::Drained => Directive::Idle,
            },
            SessionState::Draining => match ev {
                Event::Drained => {
                    self.state = SessionState::Closed;
                    Directive::Cleanup
                },
                _ => Directive::Idle,
            },
            SessionState::Closed => Directive::Idle,
        }
    }
}

/// Whether `r` is the resolved execution of the `Run` command with these
/// fields: `/bin/sh -c <command>` in `/box` with `PATH=/bin`, under the
/// derived limits, with the given stdin.
pub open spec fn planned_for(
    r: ExecRequest,
    command: String,
    limits: Option<RunLimits>,
    input: Option<Vec<u8>>,
) -> bool {
    &&& r.program@ == "/bin/sh"@
    &&& r.args@.len() == 2
    &&& r.args@[0]@ == "-c"@
    &&& r.args@[1]@ == command@
    &&& r.workdir@ == "/box"@
    &&& r.path_env@ == "/bin"@
    &&& (limits is None <==> r.limit is None)
    &&& (limits matches Some(rq) ==> (r.limit matches Some(lim) && lim.memory == Some(
        rq.max_memory,
    ) && lim.time_limit == Some(rq.max_runtime) && lim.walltime_limit == Some(
        derived_wall_seconds(rq.max_runtime),
    )))
    &&& (input matches Some(b) ==> (r.stdin matches Some(sb) && sb@ == b@))
    &&& (input is None ==> r.stdin is None)
}

/// The wire code of a run status: `Success` 0, `TimeLimitExceeded` 1,
/// `RuntimeError` 2, `SystemError` 3.
pub open spec fn wire_status(s: RunStatus) -> u32 {
    match s {
        RunStatus::Success => 0,
        RunStatus::TimeLimitExceeded => 1,
        RunStatus::RuntimeError(_) => 2,
        RunStatus::SystemError(_) => 3,
    }
}

/// Maps a run status to its wire code.
pub fn status_code(status: &RunStatus) -> (c: u32)
    ensures
        c == wire_status(*status),
{
    match status {
        RunStatus::Success => 0,
        RunStatus::TimeLimitExceeded => 1,
        RunStatus::RuntimeError(_) => 2,
        RunStatus::SystemError(_) => 3,
    }
}

/// The one message owed for a `Put`: the stored length on success, or an
/// internal error naming the cause.
pub fn put_outcome(length: usize, error: Option<String>) -> (o: Outgoing)
    ensures
        error is None ==> (o matches Outgoing::Success(Response::Put { length: l }) && l == length
            as u32),
        error matches Some(cause) ==> (o matches Outgoing::Failure(e) && e.kind
            == ErrorKind::Internal && e.message@ == "Failed to put file: "@ + cause@),
{
    match error {
        None => Outgoing::Success(Response::Put { length: #[verifier::truncate] (length as u32) }),
        Some(cause) => {
            let mut message = String::from_str("Failed to put file: ");
            message.append(cause.as_str());
            Outgoing::Failure(ErrorReply { kind: ErrorKind::Internal, message })
        },
    }
}

/// The one message owed for a `Get`: the content byte-for-byte on
/// success, or an internal error naming the cause.
pub fn get_outcome(result: Result<Vec<u8>, String>) -> (o: Outgoing)
    ensures
        result matches Ok(content) ==> (o matches Outgoing::Success(Response::Get {
            content: sent,
        }) && sent@ == content@),
        result matches Err(cause) ==> (o matches Outgoing::Failure(e) && e.kind
            == ErrorKind::Internal && e.message@ == "Failed to get file: "@ + cause@),
{
    match result {
        Ok(content) => Outgoing::Success(Response::Get { content }),
        Err(cause) => {
            let mut message = String::from_str("Failed to get file: ");
            message.append(cause.as_str());
            Outgoing::Failure(ErrorReply { kind: ErrorKind::Internal, message })
        },
    }
}

/// The one message owed for a `Run`: always a normal response — an
/// execution failure travels inside the outcome as its status — with
/// output passed through unchanged and the accounting narrowed to the
/// wire's integer widths.
pub fn run_outcome(output: RunOutput) -> (o: Outgoing)
    ensures
        o matches Outgoing::Success(Response::Run { stdout, stderr, status, runtime, memory, exit_code })
            && stdout@ == output.stdout@ && stderr@ == output.stderr@ && status == wire_status(
            output.status,
        ) && runtime == output.runtime as u64 && memory == output.memory_usage as u64 && exit_code
            == output.exit_code,
{
    let status = status_code(&output.status);
    Outgoing::Success(
        Response::Run {
            stdout: output.stdout,
            stderr: output.stderr,
            status,
            runtime: #[verifier::truncate] (output.runtime as u64),
            memory: #[verifier::truncate] (output.memory_usage as u64),
            exit_code: output.exit_code,
        },
    )
}

/// The lifecycle state after a whole trace of events.
pub open spec fn run_trace(s: SessionState, t: Seq<EvKind>) -> SessionState
    decreases t.len(),
{
    if t.len() == 0 {
        s
    } else {
        run_trace(next_state(s, t[0]), t.drop_first())
    }
}

/// How many steps of the trace hand the workspace over for removal.
pub open spec fn cleanup_count(s: SessionState, t: Seq<EvKind>) -> nat
    decreases t.len(),
{
    if t.len() == 0 {
        0
    } else {
        (if step_cleans(s, t[0]) {
            1nat
        } else {
            0nat
        }) + cleanup_count(next_state(s, t[0]), t.drop_first())
    }
}

/// How many steps of the trace owe the client a message for a command.
pub open spec fn response_count(s: SessionState, t: Seq<EvKind>) -> nat
    decreases t.len(),
{
    if t.len() == 0 {
        0
    } else {
        (if step_responds(s, t[0]) {
            1nat
        } else {
            0nat
        }) + response_count(next_state(s, t[0]), t.drop_first())
    }
}

proof fn lemma_cleanup_general(s: SessionState, t: Seq<EvKind>)
    ensures
        s is Closed ==> run_trace(s, t) is Closed && cleanup_count(s, t) == 0,
        s != SessionState::Closed ==> cleanup_count(s, t) == (if run_trace(s, t) is Closed {
            1nat
        } else {
            0nat
        }),
    decreases t.len(),
{
    if t.len() > 0 {
        lemma_cleanup_general(next_state(s, t[0]), t.drop_first());
    }
}

/// Workspace cleanup happens exactly once per session that terminates,
/// and never before: over any trace of events from a fresh session, at
/// most one step emits cleanup, and exactly one does precisely when the
/// trace ends with the session closed — after which the state machine
/// never emits anything again.
pub proof fn lemma_cleanup_exactly_once(t: Seq<EvKind>)
    ensures
        cleanup_count(SessionState::Open, t) <= 1,
        run_trace(SessionState::Open, t) is Closed <==> cleanup_count(SessionState::Open, t) == 1,
{
    lemma_cleanup_general(SessionState::Open, t);
}

/// Every command is answered and none kills the session: a fresh session
/// fed any trace of requests stays open and owes exactly one message per
/// request — and since the machine is sequential, the message for each
/// request is produced before the next request is examined, so the i-th
/// message answers the i-th request.
pub proof fn lemma_each_command_answered(t: Seq<EvKind>)
    requires
        forall|i: int|
            0 <= i < t.len() ==> t[i] == EvKind::Cmd || #[trigger] t[i] == EvKind::CmdMissing,
    ensures
        run_trace(SessionState::Open, t) is Open,
        response_count(SessionState::Open, t) == t.len(),
    decreases t.len(),
{
    if t.len() > 0 {
        assert(next_state(SessionState::Open, t[0]) is Open);
        assert forall|i: int|
            0 <= i < t.drop_first().len() implies t.drop_first()[i] == EvKind::Cmd
            || #[trigger] t.drop_first()[i] == EvKind::CmdMissing by {
            assert(t.drop_first()[i] == t[i + 1]);
        }
        lemma_each_command_answered(t.drop_first());
    }
}

} // verus!
