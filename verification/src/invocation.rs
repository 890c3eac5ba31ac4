//! One call, from admission to reply, as a machine that the driver runs: the
//! machine names the next thing to do, the driver does it and reports what
//! came of it. The slot is the exception: the call itself asks the service
//! for it and gives it back, so that no slot is held or returned but by the
//! call it was granted to.
//!
//! The order is fixed. A slot is held before anything is resolved or started;
//! the input is written and its stream closed before the outputs are drained;
//! the response is settled before the slot is given back; and the reply comes
//! last. A call that fails skips what is left and still gives its slot back.

use vstd::prelude::*;
use vstd::string::StringExecFns;
use crate::admission::{Permit, Refusal};
use crate::error::{CallError, CallErrorView, failure_text, internal_error, shutting_down_error};
use crate::exit::{exit_code, exit_code_fits, exit_code_of};
use crate::paths::{outcome_text, text_of};
use crate::service::{
    Captured, CodexCliService, ResponseView, RunCommandRequest, RunCommandResponse, ServiceView,
    SpawnPlan, names_distinct, resolve_executable, resolved_path, slice_text, spawn_plan,
    working_dir_of,
};

verus! {

/// What the driver of a call does next.
#[derive(Clone, Copy, Debug, PartialEq, Eq, Structural)]
pub enum Action {
    /// Let the call ask for its slot (`Invocation::acquire_slot`); where it
    /// is told to wait, wait for a release and let it ask again.
    AcquireSlot,
    /// Look up the path override in the environment and the bridge's own
    /// executable path.
    ResolveExecutable,
    /// Start the child process as the spawn plan says.
    Spawn,
    /// Write the whole input to the child's standard input.
    WriteInput,
    /// Close the child's standard input.
    CloseInput,
    /// Read both output streams to their ends and wait for the child, all
    /// three at the same time.
    Drain,
    /// Let the call give its slot back (`Invocation::release_slot`).
    ReleaseSlot,
    /// Hand the outcome to the caller.
    Reply,
}

/// What came of the action the driver carried out.
#[derive(Debug)]
pub enum CallEvent {
    /// The executable path found in the environment, if any, and the
    /// bridge's own executable path or the reason why it is unknown.
    Environment { env_path: Option<String>, current_exe: Result<String, String> },
    /// The child was started, with or without an open standard input, or
    /// could not be started for the reason given.
    Spawned(Result<bool, String>),
    /// The input was written in full, or the write failed.
    InputWritten(Result<(), String>),
    /// The child's standard input was closed, or the close failed.
    InputClosed(Result<(), String>),
    /// Both streams were read to their ends and the child was waited for, or
    /// the first of the three to fail did so with this error.
    Drained(Result<Captured, CallError>),
}

/// The mathematical value of a call in progress.
pub struct InvocationView {
    /// What the driver does next.
    pub pending: Action,
    /// Whether the call holds an admission slot.
    pub holds_slot: bool,
    /// The executable path given at startup, if any.
    pub cli_override: Option<Seq<char>>,
    /// The request as it came in.
    pub request: RunCommandRequest,
    /// The executable the call runs, once resolved.
    pub program: Option<Seq<char>>,
    /// How the call ended, once it has.
    pub outcome: Option<Result<ResponseView, CallErrorView>>,
}

/// What is said of a child that could not be started.
pub open spec fn spawn_failure_text(program: Seq<char>) -> Seq<char> {
    "failed to spawn "@ + program
}

/// The response to a call whose child ended with the captured streams and
/// exit status: the exit code of the status and the bytes of both streams,
/// untouched.
pub open spec fn response_of(captured: Captured) -> ResponseView {
    ResponseView {
        exit_code: exit_code_of(captured.status),
        stdout: captured.stdout@,
        stderr: captured.stderr@,
    }
}

/// Whether the machine can take the event: the exit code that a captured
/// status stands for must fit the response.
pub open spec fn event_in_range(event: CallEvent) -> bool {
    event matches CallEvent::Drained(Ok(captured)) ==> exit_code_fits(captured.status)
}

impl InvocationView {
    /// A call that has just come in.
    pub open spec fn initial(cli_override: Option<Seq<char>>, request: RunCommandRequest) -> InvocationView {
        InvocationView {
            pending: Action::AcquireSlot,
            holds_slot: false,
            cli_override,
            request,
            program: None,
            outcome: None,
        }
    }

    /// What holds of every call at every step: the request names each
    /// environment variable once; a slot is held exactly from admission
    /// until it is given back; the executable is known while the child is
    /// started, fed and drained; and the outcome is settled exactly when
    /// only the release and the reply are left.
    pub open spec fn wf(self) -> bool {
        &&& names_distinct(self.request.env@)
        &&& self.holds_slot <==> (self.pending != Action::AcquireSlot && self.pending
            != Action::Reply)
        &&& self.program is Some <== (self.pending == Action::Spawn || self.pending
            == Action::WriteInput || self.pending == Action::CloseInput || self.pending
            == Action::Drain)
        &&& self.outcome is Some <==> (self.pending == Action::ReleaseSlot || self.pending
            == Action::Reply)
    }

    /// The call settled with `outcome`: the slot is given back next if one
    /// is held, and the reply follows.
    pub open spec fn settled(self, outcome: Result<ResponseView, CallErrorView>) -> InvocationView {
        InvocationView {
            pending: if self.holds_slot {
                Action::ReleaseSlot
            } else {
                Action::Reply
            },
            outcome: Some(outcome),
            ..self
        }
    }

    /// The call moved on to `pending`.
    pub open spec fn moved_to(self, pending: Action) -> InvocationView {
        InvocationView { pending, ..self }
    }

    /// The call after it asked for its slot and was granted it, or refused
    /// for the reason given. A call that is told to wait stays where it is;
    /// a call that finds admission closed is settled as unavailable; a call
    /// that is not at its admission asks nothing.
    pub open spec fn after_admission(self, refusal: Option<Refusal>) -> InvocationView {
        if self.pending != Action::AcquireSlot {
            self
        } else {
            match refusal {
                None => InvocationView {
                    pending: Action::ResolveExecutable,
                    holds_slot: true,
                    ..self
                },
                Some(Refusal::MustWait) => self,
                Some(Refusal::Unavailable) => self.settled(Err(shutting_down_error())),
            }
        }
    }

    /// Whether the call gives its slot back now: it is settled and holds
    /// one.
    pub open spec fn releases(self) -> bool {
        self.pending == Action::ReleaseSlot
    }

    /// The call after it was asked to give its slot back.
    pub open spec fn after_release(self) -> InvocationView {
        if self.releases() {
            InvocationView { pending: Action::Reply, holds_slot: false, ..self }
        } else {
            self
        }
    }

    /// The call after the driver reported `event`. An event that does not
    /// answer the pending action changes nothing.
    pub open spec fn step(self, event: CallEvent) -> InvocationView {
        match (self.pending, event) {
            (Action::ResolveExecutable, CallEvent::Environment { env_path, current_exe }) => {
                match resolved_path(self.cli_override, text_of(env_path), outcome_text(current_exe)) {
                    Ok(program) => InvocationView {
                        pending: Action::Spawn,
                        program: Some(program),
                        ..self
                    },
                    Err(error) => self.settled(Err(error)),
                }
            },
            (Action::Spawn, CallEvent::Spawned(Ok(stdin_open))) => self.moved_to(
                if stdin_open {
                    Action::WriteInput
                } else {
                    Action::Drain
                },
            ),
            (Action::Spawn, CallEvent::Spawned(Err(cause))) => self.settled(
                Err(internal_error(failure_text(spawn_failure_text(self.program.unwrap()), cause@))),
            ),
            (Action::WriteInput, CallEvent::InputWritten(Ok(_))) => self.moved_to(Action::CloseInput),
            (Action::WriteInput, CallEvent::InputWritten(Err(cause))) => self.settled(
                Err(internal_error(failure_text("failed to write stdin"@, cause@))),
            ),
            (Action::CloseInput, CallEvent::InputClosed(Ok(_))) => self.moved_to(Action::Drain),
            (Action::CloseInput, CallEvent::InputClosed(Err(cause))) => self.settled(
                Err(internal_error(failure_text("failed to flush stdin"@, cause@))),
            ),
            (Action::Drain, CallEvent::Drained(Ok(captured))) => self.settled(
                Ok(response_of(captured)),
            ),
            (Action::Drain, CallEvent::Drained(Err(error))) => self.settled(Err(error@)),
            _ => self,
        }
    }
}

/// The view of a settled outcome.
pub open spec fn outcome_view(outcome: Result<RunCommandResponse, CallError>) -> Result<
    ResponseView,
    CallErrorView,
> {
    match outcome {
        Ok(response) => Ok(response@),
        Err(error) => Err(error@),
    }
}

/// The view of an outcome that may not be settled yet.
pub open spec fn pending_outcome_view(outcome: Option<Result<RunCommandResponse, CallError>>) -> Option<
    Result<ResponseView, CallErrorView>,
> {
    match outcome {
        Some(outcome) => Some(outcome_view(outcome)),
        None => None,
    }
}

/// One call in progress.
#[derive(Debug)]
pub struct Invocation {
    pending: Action,
    permit: Option<Permit>,
    cli_override: Option<String>,
    request: RunCommandRequest,
    program: Option<String>,
    outcome: Option<Result<RunCommandResponse, CallError>>,
}

impl View for Invocation {
    type V = InvocationView;

    closed spec fn view(&self) -> InvocationView {
        InvocationView {
            pending: self.pending,
            holds_slot: self.permit is Some,
            cli_override: text_of(self.cli_override),
            request: self.request,
            program: text_of(self.program),
            outcome: pending_outcome_view(self.outcome),
        }
    }
}

impl Invocation {
    #[verifier::type_invariant]
    spec fn well_formed(&self) -> bool {
        self@.wf()
    }

    /// A call that has just come in, for a bridge that was started with the
    /// executable path `cli_override`, if any.
    pub fn new(cli_override: Option<String>, request: RunCommandRequest) -> (call: Invocation)
        requires
            request.wf(),
        ensures
            call@ == InvocationView::initial(text_of(cli_override), request),
            call@.wf(),
    {
        Invocation {
            pending: Action::AcquireSlot,
            permit: None,
            cli_override,
            request,
            program: None,
            outcome: None,
        }
    }

    /// What the driver does next.
    pub fn pending(&self) -> (action: Action)
        ensures
            action == self@.pending,
            self@.wf(),
    {
        proof {
            use_type_invariant(self);
        }
        self.pending
    }

    /// Whether the call holds an admission slot.
    pub fn holds_slot(&self) -> (held: bool)
        ensures
            held == self@.holds_slot,
    {
        self.permit.is_some()
    }

    /// The bytes the driver writes to the child's standard input: the
    /// request's input as it stands, which may be empty.
    pub fn input(&self) -> (bytes: &Vec<u8>)
        ensures
            bytes == &self@.request.stdin,
    {
        &self.request.stdin
    }

    /// What the child is started with, once the executable is resolved.
    pub fn plan(&self) -> (plan: Option<SpawnPlan<'_>>)
        ensures
            plan is Some == self@.program is Some,
            plan matches Some(plan) ==> {
                &&& Some(plan.program@) == self@.program
                &&& plan.args == &self@.request.args
                &&& plan.env == &self@.request.env
                &&& names_distinct(plan.env@)
                &&& slice_text(plan.cwd) == working_dir_of(self@.request.cwd@)
            },
    {
        proof {
            use_type_invariant(self);
        }
        match &self.program {
            Some(program) => Some(spawn_plan(program.as_str(), &self.request)),
            None => None,
        }
    }

    /// Settles the call with `outcome`.
    fn settle(self, outcome: Result<RunCommandResponse, CallError>) -> (next: Invocation)
        requires
            self@.outcome is None,
        ensures
            next@ == self@.settled(outcome_view(outcome)),
    {
        proof {
            use_type_invariant(&self);
        }
        let pending = if self.permit.is_some() {
            Action::ReleaseSlot
        } else {
            Action::Reply
        };
        Invocation {
            pending,
            permit: self.permit,
            cli_override: self.cli_override,
            request: self.request,
            program: self.program,
            outcome: Some(outcome),
        }
    }

    /// Moves the call on to `pending`, one of the steps between the start of
    /// the child and the end of the drain.
    fn move_to(self, pending: Action) -> (next: Invocation)
        requires
            self@.program is Some,
            self@.holds_slot,
            self@.outcome is None,
            pending == Action::WriteInput || pending == Action::CloseInput || pending
                == Action::Drain,
        ensures
            next@ == self@.moved_to(pending),
    {
        proof {
            use_type_invariant(&self);
        }
        Invocation {
            pending,
            permit: self.permit,
            cli_override: self.cli_override,
            request: self.request,
            program: self.program,
            outcome: self.outcome,
        }
    }

    /// Asks the service for the call's slot, if the call is at its
    /// admission. Granted, the call holds the slot and moves on; told to
    /// wait, it stays where it is, to ask again after a release; refused
    /// because the bridge is shutting down, it is settled as unavailable
    /// before any work begins. A call that is not at its admission asks
    /// nothing and the service is left as it is.
    pub fn acquire_slot(self, service: &mut CodexCliService) -> (next: Invocation)
        ensures
            next@ == self@.after_admission(old(service)@.gate.refusal()),
            next@.wf(),
            final(service)@ == if self@.pending == Action::AcquireSlot {
                ServiceView { gate: old(service)@.gate.after_acquire(), ..old(service)@ }
            } else {
                old(service)@
            },
    {
        proof {
            use_type_invariant(&self);
        }
        match self.pending {
            Action::AcquireSlot => match service.acquire() {
                Ok(permit) => Invocation {
                    pending: Action::ResolveExecutable,
                    permit: Some(permit),
                    cli_override: self.cli_override,
                    request: self.request,
                    program: self.program,
                    outcome: self.outcome,
                },
                Err(Refusal::MustWait) => self,
                Err(Refusal::Unavailable) => self.settle(Err(CallError::shutting_down())),
            },
            _ => self,
        }
    }

    /// Gives the call's slot back to the service, if the call is settled
    /// and holds one; the reply is what is left. At any other step nothing
    /// is given back and nothing changes.
    pub fn release_slot(self, service: &mut CodexCliService) -> (next: Invocation)
        ensures
            next@ == self@.after_release(),
            next@.wf(),
            final(service)@ == if self@.releases() {
                ServiceView { gate: old(service)@.gate.after_release(), ..old(service)@ }
            } else {
                old(service)@
            },
    {
        proof {
            use_type_invariant(&self);
        }
        match (self.pending, self.permit) {
            (Action::ReleaseSlot, Some(permit)) => {
                service.release(permit);
                Invocation {
                    pending: Action::Reply,
                    permit: None,
                    cli_override: self.cli_override,
                    request: self.request,
                    program: self.program,
                    outcome: self.outcome,
                }
            },
            (pending, permit) => Invocation {
                pending,
                permit,
                cli_override: self.cli_override,
                request: self.request,
                program: self.program,
                outcome: self.outcome,
            },
        }
    }

    /// Gives the call up, at whatever step it is: the way out when the
    /// caller has gone away. The slot goes back to the service if the call
    /// holds one.
    pub fn abandon(self, service: &mut CodexCliService)
        ensures
            final(service)@ == if self@.holds_slot {
                ServiceView { gate: old(service)@.gate.after_release(), ..old(service)@ }
            } else {
                old(service)@
            },
    {
        match self.permit {
            Some(permit) => service.release(permit),
            None => {},
        }
    }

    /// Takes the driver's report of what came of the pending action and
    /// moves the call on. An event that does not answer the pending action
    /// is ignored.
    pub fn advance(self, event: CallEvent) -> (next: Invocation)
        requires
            event_in_range(event),
        ensures
            next@ == self@.step(event),
            next@.wf(),
    {
        proof {
            use_type_invariant(&self);
        }
        match (self.pending, event) {
            (Action::ResolveExecutable, CallEvent::Environment { env_path, current_exe }) => {
                match resolve_executable(&self.cli_override, env_path, current_exe) {
                    Ok(program) => Invocation {
                        pending: Action::Spawn,
                        permit: self.permit,
                        cli_override: self.cli_override,
                        request: self.request,
                        program: Some(program),
                        outcome: self.outcome,
                    },
                    Err(error) => self.settle(Err(error)),
                }
            },
            (Action::Spawn, CallEvent::Spawned(Ok(stdin_open))) => {
                let pending = if stdin_open {
                    Action::WriteInput
                } else {
                    Action::Drain
                };
                self.move_to(pending)
            },
            (Action::Spawn, CallEvent::Spawned(Err(cause))) => {
                let error = spawn_failure(&self.program, cause.as_str());
                self.settle(Err(error))
            },
            (Action::WriteInput, CallEvent::InputWritten(Ok(_))) => self.move_to(Action::CloseInput),
            (Action::WriteInput, CallEvent::InputWritten(Err(cause))) => self.settle(
                Err(CallError::failed("failed to write stdin", cause.as_str())),
            ),
            (Action::CloseInput, CallEvent::InputClosed(Ok(_))) => self.move_to(Action::Drain),
            (Action::CloseInput, CallEvent::InputClosed(Err(cause))) => self.settle(
                Err(CallError::failed("failed to flush stdin", cause.as_str())),
            ),
            (Action::Drain, CallEvent::Drained(Ok(captured))) => {
                let response = respond(captured);
                self.settle(Ok(response))
            },
            (Action::Drain, CallEvent::Drained(Err(error))) => self.settle(Err(error)),
            _ => self,
        }
    }

    /// Ends the call and hands out how it ended: the response or the error
    /// once it is settled, nothing before.
    pub fn into_outcome(self) -> (outcome: Option<Result<RunCommandResponse, CallError>>)
        ensures
            pending_outcome_view(outcome) == self@.outcome,
    {
        self.outcome
    }
}

/// The internal error for a child that could not be started.
fn spawn_failure(program: &Option<String>, cause: &str) -> (error: CallError)
    requires
        program is Some,
    ensures
        error@ == internal_error(failure_text(spawn_failure_text(program.unwrap()@), cause@)),
{
    let mut what = String::from_str("failed to spawn ");
    match program {
        Some(program) => what.append(program.as_str()),
        None => {},
    }
    CallError::failed(what.as_str(), cause)
}

/// Builds the response from what was captured of the child: its exit code
/// and every byte of its two output streams.
pub fn respond(captured: Captured) -> (response: RunCommandResponse)
    requires
        exit_code_fits(captured.status),
    ensures
        response@ == response_of(captured),
{
    RunCommandResponse {
        exit_code: exit_code(captured.status),
        stdout: captured.stdout,
        stderr: captured.stderr,
    }
}

/// Every step of a call keeps what holds of every call.
pub proof fn lemma_step_keeps_wf(call: InvocationView, event: CallEvent, refusal: Option<Refusal>)
    requires
        call.wf(),
    ensures
        call.step(event).wf(),
        call.after_admission(refusal).wf(),
        call.after_release().wf(),
{
}

/// The bytes in the response are the bytes that were captured, each of them
/// and in their order: a call whose drain ends with the captured streams is
/// settled with exactly those bytes, and no later step changes them.
pub proof fn lemma_output_preserved(call: InvocationView, captured: Captured, later: CallEvent)
    requires
        call.wf(),
        call.pending == Action::Drain,
    ensures
        call.step(CallEvent::Drained(Ok(captured))).outcome == Some(
            Ok::<ResponseView, CallErrorView>(response_of(captured)),
        ),
        response_of(captured).stdout == captured.stdout@,
        response_of(captured).stderr == captured.stderr@,
        call.step(CallEvent::Drained(Ok(captured))).step(later).outcome == call.step(
            CallEvent::Drained(Ok(captured)),
        ).outcome,
        call.step(CallEvent::Drained(Ok(captured))).after_release().outcome == call.step(
            CallEvent::Drained(Ok(captured)),
        ).outcome,
{
}

/// A slot is held whenever work is done for a call, and never at the reply:
/// it is acquired before the executable is resolved or the child started,
/// and given back before the caller is answered, whether the call succeeded
/// or failed.
pub proof fn lemma_slot_spans_the_work(call: InvocationView)
    requires
        call.wf(),
    ensures
        call.pending == Action::Reply ==> !call.holds_slot && call.outcome is Some,
        call.pending == Action::AcquireSlot ==> !call.holds_slot && call.outcome is None,
        (call.pending == Action::ResolveExecutable || call.pending == Action::Spawn || call.pending
            == Action::WriteInput || call.pending == Action::CloseInput || call.pending
            == Action::Drain) ==> call.holds_slot && call.outcome is None,
        call.pending == Action::ReleaseSlot ==> call.holds_slot && call.outcome is Some,
{
}

/// The drain starts only after the input was written and its stream closed:
/// the one step that leads from the write to the drain goes through the
/// close, and a failed write or close settles the call without a drain.
pub proof fn lemma_input_closed_before_drain(call: InvocationView, event: CallEvent)
    requires
        call.wf(),
        call.step(event).pending == Action::Drain,
        call.pending != Action::Drain,
    ensures
        (call.pending == Action::CloseInput && event matches CallEvent::InputClosed(Ok(_))) || (
        call.pending == Action::Spawn && event == CallEvent::Spawned(Ok(false))),
{
}

/// A call that is refused at admission is settled before any work begins:
/// it holds no slot, resolves nothing and goes straight to the reply.
pub proof fn lemma_refused_before_work(call: InvocationView)
    requires
        call.wf(),
        call.pending == Action::AcquireSlot,
    ensures
        call.after_admission(Some(Refusal::Unavailable)).pending == Action::Reply,
        call.after_admission(Some(Refusal::Unavailable)).outcome == Some(
            Err::<ResponseView, CallErrorView>(shutting_down_error()),
        ),
        call.after_admission(Some(Refusal::Unavailable)).program == call.program,
        !call.after_admission(Some(Refusal::Unavailable)).holds_slot,
{
}

/// No report of the driver gives a call a slot or takes one from it: a slot
/// comes only with a grant at the call's admission, and goes only when the
/// settled call gives it back.
pub proof fn lemma_slot_moves_only_through_the_service(
    call: InvocationView,
    event: CallEvent,
    refusal: Option<Refusal>,
)
    requires
        call.wf(),
    ensures
        call.step(event).holds_slot == call.holds_slot,
        call.after_admission(refusal).holds_slot != call.holds_slot ==> call.pending
            == Action::AcquireSlot && refusal is None,
        call.after_release().holds_slot != call.holds_slot ==> call.pending
            == Action::ReleaseSlot,
{
}

} // verus!
