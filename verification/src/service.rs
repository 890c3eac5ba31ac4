//! The command execution service: what a call carries, which executable it
//! runs, what the child process is started with, and what is made of the
//! streams and the exit status that come back.

use vstd::prelude::*;
use crate::admission::{
    AdmissionGate, ConcurrencyLimit, GateView, Permit, Refusal, is_limit, limit_of, refusal_of,
};
use crate::error::{CallError, CallErrorView, failure_text, internal_error};
use crate::exit::ProcessExit;
use crate::invocation::{Invocation, InvocationView};
use crate::paths::{outcome_text, text_of, with_file_name, with_file_name_of};

verus! {

/// A request to run the program once.
#[derive(Debug)]
pub struct RunCommandRequest {
    /// The program's arguments, in order.
    pub args: Vec<String>,
    /// Environment variables set for the child on top of the bridge's own:
    /// names with their values, each name once.
    pub env: Vec<(String, String)>,
    /// The child's working directory; empty to inherit the bridge's.
    pub cwd: String,
    /// The bytes written to the child's standard input.
    pub stdin: Vec<u8>,
}

/// Whether no name occurs twice among environment overrides: they are a
/// mapping from names to values, written down as a list.
pub open spec fn names_distinct(env: Seq<(String, String)>) -> bool {
    forall|i: int, j: int|
        0 <= i < j < env.len() ==> (#[trigger] env[i]).0@ != (#[trigger] env[j]).0@
}

/// Tells whether no name occurs twice among environment overrides.
pub fn has_distinct_names(env: &Vec<(String, String)>) -> (distinct: bool)
    ensures
        distinct == names_distinct(env@),
{
    let mut j: usize = 0;
    while j < env.len()
        invariant
            j <= env.len(),
            forall|a: int, b: int|
                0 <= a < b < j ==> (#[trigger] env@[a]).0@ != (#[trigger] env@[b]).0@,
        decreases env.len() - j,
    {
        let mut i: usize = 0;
        while i < j
            invariant
                i <= j < env.len(),
                forall|a: int| 0 <= a < i ==> (#[trigger] env@[a]).0@ != env@[j as int].0@,
            decreases j - i,
        {
            if env[i].0 == env[j].0 {
                return false;
            }
            i = i + 1;
        }
        j = j + 1;
    }
    true
}

impl RunCommandRequest {
    /// What holds of every request that is run: its environment overrides
    /// name each variable once.
    pub open spec fn wf(&self) -> bool {
        names_distinct(self.env@)
    }

    /// Tells whether the request can be run.
    pub fn is_well_formed(&self) -> (ok: bool)
        ensures
            ok == self.wf(),
    {
        has_distinct_names(&self.env)
    }
}

/// What a finished run hands back.
#[derive(Debug)]
pub struct RunCommandResponse {
    pub exit_code: i32,
    pub stdout: Vec<u8>,
    pub stderr: Vec<u8>,
}

/// The mathematical value of a response.
pub struct ResponseView {
    pub exit_code: int,
    pub stdout: Seq<u8>,
    pub stderr: Seq<u8>,
}

impl View for RunCommandResponse {
    type V = ResponseView;

    open spec fn view(&self) -> ResponseView {
        ResponseView { exit_code: self.exit_code as int, stdout: self.stdout@, stderr: self.stderr@ }
    }
}

/// What the child process is started with. Its standard input, output and
/// error are always pipes of their own.
#[derive(Debug)]
pub struct SpawnPlan<'a> {
    /// The executable to run.
    pub program: &'a str,
    /// Its arguments, in order.
    pub args: &'a Vec<String>,
    /// Variables set on top of the bridge's environment.
    pub env: &'a Vec<(String, String)>,
    /// The working directory, or `None` to inherit the bridge's.
    pub cwd: Option<&'a str>,
}

/// One of the child's two output streams.
#[derive(Clone, Copy, Debug, PartialEq, Eq, Structural)]
pub enum OutputStream {
    Stdout,
    Stderr,
}

/// What a child's output streams and exit status came to.
#[derive(Debug)]
pub struct Captured {
    pub stdout: Vec<u8>,
    pub stderr: Vec<u8>,
    pub status: ProcessExit,
}

/// The name of the program that is run when nothing names another.
pub open spec fn program_name() -> Seq<char> {
    "codex"@
}

/// The executable a call runs, by precedence: the path given at startup,
/// then the path found in the environment, then the file named
/// `program_name()` beside the bridge's own executable. Where the first two
/// are missing and the bridge's own executable is unknown, an internal error
/// that carries the cause.
pub open spec fn resolved_path(
    cli_override: Option<Seq<char>>,
    env_path: Option<Seq<char>>,
    current_exe: Result<Seq<char>, Seq<char>>,
) -> Result<Seq<char>, CallErrorView> {
    match cli_override {
        Some(path) => Ok(path),
        None => match env_path {
            Some(path) => Ok(path),
            None => match current_exe {
                Ok(exe) => Ok(with_file_name_of(exe, program_name())),
                Err(cause) => Err(
                    internal_error(failure_text("failed to determine current executable"@, cause)),
                ),
            },
        },
    }
}

/// The view of a resolved path or of the error in its place.
pub open spec fn resolution_view(value: Result<String, CallError>) -> Result<Seq<char>, CallErrorView> {
    match value {
        Ok(path) => Ok(path@),
        Err(error) => Err(error@),
    }
}

/// Resolves the executable of a call from the startup override, the path
/// found in the environment and the bridge's own executable path (or the
/// reason why it is unknown).
pub fn resolve_executable(
    cli_override: &Option<String>,
    env_path: Option<String>,
    current_exe: Result<String, String>,
) -> (resolved: Result<String, CallError>)
    ensures
        resolution_view(resolved) == resolved_path(
            text_of(*cli_override),
            text_of(env_path),
            outcome_text(current_exe),
        ),
{
    if let Some(path) = cli_override {
        return Ok(path.clone());
    }
    if let Some(path) = env_path {
        return Ok(path);
    }
    match current_exe {
        Ok(exe) => Ok(with_file_name(exe.as_str(), "codex")),
        Err(cause) => Err(
            CallError::failed("failed to determine current executable", cause.as_str()),
        ),
    }
}

/// The mathematical value of the service.
pub struct ServiceView {
    /// The executable path given at startup, if any.
    pub cli_path: Option<Seq<char>>,
    /// The admission gate.
    pub gate: GateView,
}

/// The command execution service: the executable override it was started
/// with and the admission gate that admits its calls.
#[derive(Debug)]
pub struct CodexCliService {
    cli_path: Option<String>,
    gate: AdmissionGate,
}

impl View for CodexCliService {
    type V = ServiceView;

    closed spec fn view(&self) -> ServiceView {
        ServiceView { cli_path: text_of(self.cli_path), gate: self.gate@ }
    }
}

impl CodexCliService {
    /// The service for the given executable override and concurrency limit.
    /// Without a limit every call is admitted at once; with one, which is a
    /// positive number, at most that many calls run at the same time.
    pub fn new(cli_path: Option<String>, concurrency_limit: Option<usize>) -> (service:
        CodexCliService)
        requires
            is_limit(concurrency_limit),
        ensures
            service@ == (ServiceView {
                cli_path: text_of(cli_path),
                gate: GateView::initial(limit_of(concurrency_limit)),
            }),
            service@.gate.wf(),
    {
        let gate = AdmissionGate::new(ConcurrencyLimit::from_option(concurrency_limit));
        CodexCliService { cli_path, gate }
    }

    /// Resolves the executable that calls run, given the path found in the
    /// environment, if any, and the bridge's own executable path or the
    /// reason why it is unknown.
    pub fn resolve_cli_path(&self, env_path: Option<String>, current_exe: Result<String, String>) -> (resolved:
        Result<String, CallError>)
        ensures
            resolution_view(resolved) == resolved_path(
                self@.cli_path,
                text_of(env_path),
                outcome_text(current_exe),
            ),
    {
        resolve_executable(&self.cli_path, env_path, current_exe)
    }

    /// The admission gate, to look at.
    pub fn gate(&self) -> (gate: &AdmissionGate)
        ensures
            gate@ == self@.gate,
    {
        &self.gate
    }

    /// Asks the admission gate for a slot for one call.
    pub fn acquire(&mut self) -> (answer: Result<Permit, Refusal>)
        ensures
            refusal_of(answer) == old(self)@.gate.refusal(),
            final(self)@ == (ServiceView { gate: old(self)@.gate.after_acquire(), ..old(self)@ }),
            final(self)@.gate.wf(),
    {
        self.gate.try_acquire()
    }

    /// Takes the slot of one call back.
    pub fn release(&mut self, permit: Permit)
        ensures
            final(self)@ == (ServiceView { gate: old(self)@.gate.after_release(), ..old(self)@ }),
            final(self)@.gate.wf(),
    {
        self.gate.release(permit)
    }

    /// Closes the admission gate: every call that asks for a slot from now
    /// on, and every call that waits for one, is told that the bridge is
    /// shutting down. Calls that hold a slot run on.
    pub fn close(&mut self)
        ensures
            final(self)@ == (ServiceView { gate: old(self)@.gate.after_close(), ..old(self)@ }),
            final(self)@.gate.wf(),
    {
        self.gate.close()
    }

    /// Takes in a request to run the program: the call for it, not yet
    /// admitted, for the driver to carry through.
    pub fn run_command(&self, request: RunCommandRequest) -> (call: Invocation)
        requires
            request.wf(),
        ensures
            call@ == InvocationView::initial(self@.cli_path, request),
            call@.wf(),
    {
        let cli_override = match &self.cli_path {
            Some(path) => Some(path.clone()),
            None => None,
        };
        Invocation::new(cli_override, request)
    }
}

/// The working directory a request asks for: none where it names none.
pub open spec fn working_dir_of(cwd: Seq<char>) -> Option<Seq<char>> {
    if cwd.len() == 0 {
        None
    } else {
        Some(cwd)
    }
}

/// The text of an optional string slice.
pub open spec fn slice_text(value: Option<&str>) -> Option<Seq<char>> {
    match value {
        Some(text) => Some(text@),
        None => None,
    }
}

/// What the child is started with: the resolved program, the request's
/// arguments and environment overrides as they stand, each variable named
/// once, and the request's working directory unless it is empty.
pub fn spawn_plan<'a>(program: &'a str, request: &'a RunCommandRequest) -> (plan: SpawnPlan<'a>)
    requires
        request.wf(),
    ensures
        plan.program@ == program@,
        plan.args == &request.args,
        plan.env == &request.env,
        names_distinct(plan.env@),
        slice_text(plan.cwd) == working_dir_of(request.cwd@),
{
    let cwd = if request.cwd.as_str().is_empty() {
        None
    } else {
        Some(request.cwd.as_str())
    };
    SpawnPlan { program, args: &request.args, env: &request.env, cwd }
}

/// What a read of a stream to its end came to, seen as bytes or the error.
pub open spec fn bytes_view(value: Result<Vec<u8>, CallError>) -> Result<Seq<u8>, CallErrorView> {
    match value {
        Ok(bytes) => Ok(bytes@),
        Err(error) => Err(error@),
    }
}

/// What is said of a stream that could not be read.
pub open spec fn read_failure_text(stream: OutputStream) -> Seq<char> {
    match stream {
        OutputStream::Stdout => "failed to read stdout"@,
        OutputStream::Stderr => "failed to read stderr"@,
    }
}

/// What the bytes captured from a stream are: nothing where the child has no
/// such stream, all the bytes that were read where the read reached the end,
/// and an internal error that names the stream where the read failed.
pub open spec fn captured_bytes(
    stream: OutputStream,
    outcome: Option<Result<Vec<u8>, String>>,
) -> Result<Seq<u8>, CallErrorView> {
    match outcome {
        None => Ok(Seq::empty()),
        Some(Ok(bytes)) => Ok(bytes@),
        Some(Err(cause)) => Err(internal_error(failure_text(read_failure_text(stream), cause@))),
    }
}

/// Turns the outcome of reading one of the child's output streams to its end
/// into the captured bytes. `outcome` is `None` where the child has no such
/// stream.
pub fn read_stream(stream: OutputStream, outcome: Option<Result<Vec<u8>, String>>) -> (captured:
    Result<Vec<u8>, CallError>)
    ensures
        bytes_view(captured) == captured_bytes(stream, outcome),
{
    match outcome {
        None => Ok(Vec::new()),
        Some(Ok(bytes)) => Ok(bytes),
        Some(Err(cause)) => {
            let what = match stream {
                OutputStream::Stdout => "failed to read stdout",
                OutputStream::Stderr => "failed to read stderr",
            };
            Err(CallError::failed(what, cause.as_str()))
        },
    }
}

/// The exit status of the child, or the internal error for a wait that
/// failed.
pub open spec fn awaited_status(outcome: Result<ProcessExit, String>) -> Result<
    ProcessExit,
    CallErrorView,
> {
    match outcome {
        Ok(status) => Ok(status),
        Err(cause) => Err(internal_error(failure_text("failed to wait for process"@, cause@))),
    }
}

/// The view of an exit status or of the error in its place.
pub open spec fn status_view(value: Result<ProcessExit, CallError>) -> Result<
    ProcessExit,
    CallErrorView,
> {
    match value {
        Ok(status) => Ok(status),
        Err(error) => Err(error@),
    }
}

/// Turns the outcome of waiting for the child into its exit status.
pub fn wait_outcome(outcome: Result<ProcessExit, String>) -> (status: Result<ProcessExit, CallError>)
    ensures
        status_view(status) == awaited_status(outcome),
{
    match outcome {
        Ok(status) => Ok(status),
        Err(cause) => Err(CallError::failed("failed to wait for process", cause.as_str())),
    }
}

} // verus!
