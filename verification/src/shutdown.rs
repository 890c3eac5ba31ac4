//! The shutdown coordinator: the server runs, shuts down, and stops, in that
//! order and never backwards.

use vstd::prelude::*;
use crate::admission::GateView;
use crate::service::{CodexCliService, ServiceView};
use crate::error::{ServerError, ServerErrorView, ServerFailure, server_error};
use crate::socket::{CleanupView, SocketCleanup, error_view};

verus! {

/// Where the server is in its life.
#[derive(Clone, Copy, Debug, PartialEq, Eq, Structural)]
pub enum Phase {
    /// The listener accepts connections and the admission gate admits calls.
    Running,
    /// The listener accepts no more; the calls in flight run to their end.
    ShuttingDown,
    /// Every call has ended, the listener is closed and the socket released.
    Stopped,
}

/// The mathematical value of a coordinator.
pub struct CoordinatorView {
    pub phase: Phase,
    /// The guard of the socket the server listens on.
    pub cleanup: CleanupView,
    /// The first error the server met, if it met one.
    pub first_error: Option<ServerErrorView>,
}

impl CoordinatorView {
    /// What holds of every coordinator at every step: the socket is
    /// released exactly when the server has stopped.
    pub open spec fn wf(self) -> bool {
        self.cleanup.armed <==> self.phase != Phase::Stopped
    }

    /// The coordinator of a server that has just bound its socket.
    pub open spec fn initial(cleanup: CleanupView) -> CoordinatorView {
        CoordinatorView { phase: Phase::Running, cleanup, first_error: None }
    }

    /// Whether a shutdown trigger now begins the shutdown.
    pub open spec fn begins_shutdown(self) -> bool {
        self.phase == Phase::Running
    }

    /// The coordinator after a shutdown trigger.
    pub open spec fn after_trigger(self) -> CoordinatorView {
        if self.begins_shutdown() {
            CoordinatorView { phase: Phase::ShuttingDown, ..self }
        } else {
            self
        }
    }

    /// The coordinator after an error was reported: the first one stays.
    pub open spec fn after_error(self, error: ServerErrorView) -> CoordinatorView {
        if self.first_error is Some {
            self
        } else {
            CoordinatorView { first_error: Some(error), ..self }
        }
    }

    /// Whether the server stops now: it is shutting down, no call is in
    /// flight and the listener is closed.
    pub open spec fn stops(self, in_flight: nat, listener_closed: bool) -> bool {
        self.phase == Phase::ShuttingDown && in_flight == 0 && listener_closed
    }

    /// The coordinator after the server was asked to stop.
    pub open spec fn after_stop(self, in_flight: nat, listener_closed: bool) -> CoordinatorView {
        if self.stops(in_flight, listener_closed) {
            CoordinatorView { phase: Phase::Stopped, cleanup: self.cleanup.released(), ..self }
        } else {
            self
        }
    }

    /// The coordinator after the server was made to stop at once.
    pub open spec fn after_forced_stop(self) -> CoordinatorView {
        CoordinatorView { phase: Phase::Stopped, cleanup: self.cleanup.released(), ..self }
    }

    /// What the process ends with: the first error, or success.
    pub open spec fn exit(self) -> Result<(), ServerErrorView> {
        match self.first_error {
            Some(error) => Err(error),
            None => Ok(()),
        }
    }
}

/// What a request to stop came to.
#[derive(Clone, Copy, Debug, PartialEq, Eq, Structural)]
pub enum StopDecision {
    /// The server is not shutting down, calls are in flight or the listener
    /// is open: nothing changed.
    NotYet,
    /// The server has stopped; the socket file is to be removed now.
    StoppedRemoveSocket,
    /// The server has stopped; there is no socket file to remove.
    Stopped,
}

/// The decision on a request to stop.
pub open spec fn stop_decision(
    coordinator: CoordinatorView,
    in_flight: nat,
    listener_closed: bool,
) -> StopDecision {
    if !coordinator.stops(in_flight, listener_closed) {
        StopDecision::NotYet
    } else if coordinator.cleanup.removes() {
        StopDecision::StoppedRemoveSocket
    } else {
        StopDecision::Stopped
    }
}

/// The shutdown coordinator of one server.
#[derive(Debug)]
pub struct ShutdownCoordinator {
    phase: Phase,
    cleanup: SocketCleanup,
    first_error: Option<ServerError>,
}

impl View for ShutdownCoordinator {
    type V = CoordinatorView;

    closed spec fn view(&self) -> CoordinatorView {
        CoordinatorView {
            phase: self.phase,
            cleanup: self.cleanup@,
            first_error: error_view(self.first_error),
        }
    }
}

/// The view of what a process ends with.
pub open spec fn exit_view(result: Result<(), ServerError>) -> Result<(), ServerErrorView> {
    match result {
        Ok(_) => Ok(()),
        Err(error) => Err(error@),
    }
}

impl ShutdownCoordinator {
    /// The coordinator of a server that has just bound its socket and holds
    /// the guard for it.
    pub fn new(cleanup: SocketCleanup) -> (coordinator: ShutdownCoordinator)
        ensures
            coordinator@ == CoordinatorView::initial(cleanup@),
            cleanup@.armed ==> coordinator@.wf(),
    {
        ShutdownCoordinator { phase: Phase::Running, cleanup, first_error: None }
    }

    /// Where the server is in its life.
    pub fn phase(&self) -> (phase: Phase)
        ensures
            phase == self@.phase,
    {
        self.phase
    }

    /// The path of the socket the server listens on.
    pub fn socket_path(&self) -> (path: &str)
        ensures
            path@ == self@.cleanup.path,
    {
        self.cleanup.path()
    }

    /// Whether the listener accepts connections: only while running.
    pub fn is_accepting(&self) -> (accepting: bool)
        ensures
            accepting == (self@.phase == Phase::Running),
    {
        match self.phase {
            Phase::Running => true,
            _ => false,
        }
    }

    /// Triggers the shutdown. The first trigger of a running server begins
    /// it and closes the service's admission gate, and the answer is true:
    /// the driver stops the listener from accepting. Every later trigger
    /// changes nothing and answers false.
    pub fn trigger(&mut self, service: &mut CodexCliService) -> (began: bool)
        ensures
            began == old(self)@.begins_shutdown(),
            final(self)@ == old(self)@.after_trigger(),
            old(self)@.wf() ==> final(self)@.wf(),
            final(service)@ == if began {
                ServiceView { gate: old(service)@.gate.after_close(), ..old(service)@ }
            } else {
                old(service)@
            },
    {
        match self.phase {
            Phase::Running => {
                self.phase = Phase::ShuttingDown;
                service.close();
                true
            },
            _ => false,
        }
    }

    /// Reports that serving failed because of `cause`. Only the first error
    /// is kept.
    pub fn serve_failed(&mut self, cause: String)
        ensures
            final(self)@ == old(self)@.after_error(
                server_error(ServerFailure::Serve, old(self)@.cleanup.path, cause@),
            ),
            old(self)@.wf() ==> final(self)@.wf(),
    {
        if self.first_error.is_none() {
            let error = ServerError::new(ServerFailure::Serve, self.cleanup.path(), cause);
            self.first_error = Some(error);
        }
    }

    /// Asks the server to stop. It stops only when it is shutting down, the
    /// service's gate counts no call in flight and the listener is closed.
    /// On that step, and on no other, the socket is released: the decision
    /// says whether its file is to be removed.
    pub fn try_stop(&mut self, service: &CodexCliService, listener_closed: bool) -> (decision:
        StopDecision)
        ensures
            decision == stop_decision(old(self)@, service@.gate.in_flight, listener_closed),
            final(self)@ == old(self)@.after_stop(service@.gate.in_flight, listener_closed),
            old(self)@.wf() ==> final(self)@.wf(),
    {
        let shutting_down = match self.phase {
            Phase::ShuttingDown => true,
            _ => false,
        };
        if shutting_down && service.gate().in_flight() == 0 && listener_closed {
            let remove = self.cleanup.release();
            self.phase = Phase::Stopped;
            if remove {
                StopDecision::StoppedRemoveSocket
            } else {
                StopDecision::Stopped
            }
        } else {
            StopDecision::NotYet
        }
    }

    /// Stops the server at once, whatever it is doing: the way out when the
    /// server is torn down without a drain. The socket is released, and the
    /// answer says whether its file is to be removed now: true the first
    /// time the socket is released, if its path is not empty, and never
    /// again.
    pub fn force_stop(&mut self) -> (remove: bool)
        ensures
            remove == old(self)@.cleanup.removes(),
            final(self)@ == old(self)@.after_forced_stop(),
            final(self)@.wf(),
    {
        let remove = self.cleanup.release();
        self.phase = Phase::Stopped;
        remove
    }

    /// What the process ends with: the first error the server met, or
    /// success if it met none.
    pub fn exit(&self) -> (result: Result<(), ServerError>)
        ensures
            exit_view(result) == self@.exit(),
    {
        match &self.first_error {
            Some(error) => Err(
                ServerError {
                    failure: error.failure,
                    context: error.context.clone(),
                    cause: error.cause.clone(),
                },
            ),
            None => Ok(()),
        }
    }
}

/// A second shutdown trigger is a no-op: it begins nothing and leaves the
/// coordinator as the first trigger left it.
pub proof fn lemma_trigger_idempotent(coordinator: CoordinatorView)
    ensures
        !coordinator.after_trigger().begins_shutdown(),
        coordinator.after_trigger().after_trigger() == coordinator.after_trigger(),
{
}

/// The server never goes back: no step leads to `Running` from another
/// phase, and none leaves `Stopped`.
pub proof fn lemma_shutdown_one_way(
    coordinator: CoordinatorView,
    error: ServerErrorView,
    in_flight: nat,
    listener_closed: bool,
)
    requires
        coordinator.phase != Phase::Running,
    ensures
        coordinator.after_trigger().phase == coordinator.phase,
        coordinator.after_error(error).phase == coordinator.phase,
        coordinator.after_stop(in_flight, listener_closed).phase != Phase::Running,
        coordinator.phase == Phase::Stopped ==> coordinator.after_stop(in_flight, listener_closed)
            == coordinator,
        coordinator.after_forced_stop().phase == Phase::Stopped,
{
}

/// The server does not stop while a call is in flight, whether the service
/// has a concurrency limit or none: every call that was granted a slot is
/// counted until it gives the slot back, and a request to stop changes
/// nothing while the count is not zero.
pub proof fn lemma_stop_waits_for_calls(
    coordinator: CoordinatorView,
    gate: GateView,
    listener_closed: bool,
)
    requires
        gate.wf(),
    ensures
        gate.in_flight > 0 ==> stop_decision(coordinator, gate.in_flight, listener_closed)
            == StopDecision::NotYet && coordinator.after_stop(gate.in_flight, listener_closed)
            == coordinator,
        gate.refusal() is None ==> stop_decision(
            coordinator,
            gate.after_acquire().in_flight,
            listener_closed,
        ) == StopDecision::NotYet,
        gate.refusal() is None ==> stop_decision(
            coordinator,
            gate.after_acquire().after_close().in_flight,
            listener_closed,
        ) == StopDecision::NotYet,
{
}

/// The socket is released exactly once: on the step that stops the server.
/// Before it the guard is armed, after it nothing is left to remove, and a
/// second request to stop changes nothing.
pub proof fn lemma_socket_released_on_stop(
    coordinator: CoordinatorView,
    in_flight: nat,
    listener_closed: bool,
)
    requires
        coordinator.wf(),
    ensures
        coordinator.after_stop(in_flight, listener_closed).wf(),
        coordinator.after_trigger().wf(),
        coordinator.phase != Phase::Stopped ==> coordinator.cleanup.armed,
        stop_decision(
            coordinator.after_stop(in_flight, listener_closed),
            in_flight,
            listener_closed,
        ) == StopDecision::NotYet,
        coordinator.after_stop(in_flight, listener_closed).after_stop(in_flight, listener_closed)
            == coordinator.after_stop(in_flight, listener_closed),
        !coordinator.after_stop(in_flight, listener_closed).after_forced_stop().cleanup.removes(),
        !coordinator.after_forced_stop().after_forced_stop().cleanup.removes(),
        coordinator.after_forced_stop().after_forced_stop() == coordinator.after_forced_stop(),
{
}

} // verus!
