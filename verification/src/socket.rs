//! The life of the listening socket: how its path is made ready and bound,
//! and the guard that sees the socket file removed when the server ends.

use vstd::prelude::*;
use crate::error::{ServerError, ServerErrorView, ServerFailure, server_error};
use crate::paths::{parent, parent_of, text_of};

verus! {

/// The mathematical value of a socket guard.
pub struct CleanupView {
    /// The path of the socket file.
    pub path: Seq<char>,
    /// Whether the file is still to be removed.
    pub armed: bool,
}

impl CleanupView {
    /// Whether a release now has a file to remove: the guard is armed and
    /// its path is not empty.
    pub open spec fn removes(self) -> bool {
        self.armed && self.path.len() > 0
    }

    /// The guard after a release.
    pub open spec fn released(self) -> CleanupView {
        CleanupView { armed: false, ..self }
    }
}

/// The guard of a bound socket. Whoever ends the server releases it, on every
/// way out; the first release says whether the socket file is to be removed,
/// every later one says that nothing is left to do.
#[derive(Debug)]
pub struct SocketCleanup {
    path: String,
    armed: bool,
}

impl View for SocketCleanup {
    type V = CleanupView;

    closed spec fn view(&self) -> CleanupView {
        CleanupView { path: self.path@, armed: self.armed }
    }
}

impl SocketCleanup {
    /// The guard for the socket file at `path`, armed.
    pub fn new(path: String) -> (guard: SocketCleanup)
        ensures
            guard@ == (CleanupView { path: path@, armed: true }),
    {
        SocketCleanup { path, armed: true }
    }

    /// The path of the socket file.
    pub fn path(&self) -> (path: &str)
        ensures
            path@ == self@.path,
    {
        self.path.as_str()
    }

    /// Whether the socket file is still to be removed.
    pub fn is_armed(&self) -> (armed: bool)
        ensures
            armed == self@.armed,
    {
        self.armed
    }

    /// Releases the socket. Returns whether the caller is to remove the
    /// socket file now: true on the first release of a guard whose path is
    /// not empty, false ever after. That the file is already gone when the
    /// caller tries is no error.
    pub fn release(&mut self) -> (remove: bool)
        ensures
            remove == old(self)@.removes(),
            final(self)@ == old(self)@.released(),
    {
        let remove = self.armed && !self.path.as_str().is_empty();
        self.armed = false;
        remove
    }
}

/// Releasing a guard twice is releasing it once, and the second release has
/// nothing to remove.
pub proof fn lemma_release_once(guard: CleanupView)
    ensures
        !guard.released().removes(),
        guard.released().released() == guard.released(),
{
}

/// What the driver of the socket's setup does next.
#[derive(Clone, Copy, Debug, PartialEq, Eq, Structural)]
pub enum SetupAction {
    /// Create the socket path's parent directory and every missing
    /// directory above it.
    CreateParent,
    /// Look whether a file exists at the socket path.
    Probe,
    /// Remove the file at the socket path: it is left from an earlier run.
    RemoveStale,
    /// Bind the listener to the socket path.
    Bind,
    /// The listener is bound: serve.
    Serve,
    /// The setup failed: end with the error.
    Abort,
}

/// What came of the action the driver carried out.
#[derive(Debug)]
pub enum SetupEvent {
    /// The directories were created, or could not be.
    ParentCreated(Result<(), String>),
    /// Whether a file exists at the socket path.
    Probed(bool),
    /// The stale file was removed, or could not be.
    StaleRemoved(Result<(), String>),
    /// The listener was bound, or could not be.
    Bound(Result<(), String>),
}

/// The mathematical value of a socket setup.
pub struct SetupView {
    /// The path of the socket.
    pub path: Seq<char>,
    /// The directory to create first, if there is one.
    pub parent: Option<Seq<char>>,
    /// What the driver does next.
    pub pending: SetupAction,
    /// Why the setup failed, if it did.
    pub error: Option<ServerErrorView>,
}

/// The directory that is created before the socket is bound: the parent of
/// the socket's path, unless the path has none or an empty one.
pub open spec fn directory_to_create(parent: Option<Seq<char>>) -> Option<Seq<char>> {
    match parent {
        Some(dir) => if dir.len() > 0 {
            Some(dir)
        } else {
            None
        },
        None => None,
    }
}

impl SetupView {
    /// The setup of the socket at `path`, whose parent by the path rules is
    /// `parent`.
    pub open spec fn initial(path: Seq<char>, parent: Option<Seq<char>>) -> SetupView {
        SetupView {
            path,
            parent: directory_to_create(parent),
            pending: if directory_to_create(parent) is Some {
                SetupAction::CreateParent
            } else {
                SetupAction::Probe
            },
            error: None,
        }
    }

    /// What holds of every setup at every step: it carries an error exactly
    /// when it has failed, and it creates a directory only where there is
    /// one to create.
    pub open spec fn wf(self) -> bool {
        &&& self.error is Some <==> self.pending == SetupAction::Abort
        &&& self.pending == SetupAction::CreateParent ==> self.parent is Some
    }

    /// The setup moved on to `pending`.
    pub open spec fn moved_to(self, pending: SetupAction) -> SetupView {
        SetupView { pending, ..self }
    }

    /// The setup failed at `failure` because of `cause`.
    pub open spec fn failed(self, failure: ServerFailure, cause: Seq<char>) -> SetupView {
        SetupView {
            pending: SetupAction::Abort,
            error: Some(server_error(failure, self.path, cause)),
            ..self
        }
    }

    /// The setup after the driver reported `event`. A file found at the
    /// socket's path is removed before the bind, without complaint. An
    /// event that does not answer the pending action changes nothing.
    pub open spec fn step(self, event: SetupEvent) -> SetupView {
        match (self.pending, event) {
            (SetupAction::CreateParent, SetupEvent::ParentCreated(Ok(_))) => self.moved_to(
                SetupAction::Probe,
            ),
            (SetupAction::CreateParent, SetupEvent::ParentCreated(Err(cause))) => self.failed(
                ServerFailure::CreateParent,
                cause@,
            ),
            (SetupAction::Probe, SetupEvent::Probed(exists)) => self.moved_to(
                if exists {
                    SetupAction::RemoveStale
                } else {
                    SetupAction::Bind
                },
            ),
            (SetupAction::RemoveStale, SetupEvent::StaleRemoved(Ok(_))) => self.moved_to(
                SetupAction::Bind,
            ),
            (SetupAction::RemoveStale, SetupEvent::StaleRemoved(Err(cause))) => self.failed(
                ServerFailure::RemoveStale,
                cause@,
            ),
            (SetupAction::Bind, SetupEvent::Bound(Ok(_))) => self.moved_to(SetupAction::Serve),
            (SetupAction::Bind, SetupEvent::Bound(Err(cause))) => self.failed(
                ServerFailure::Bind,
                cause@,
            ),
            _ => self,
        }
    }
}

/// The view of an error that may be there.
pub open spec fn error_view(error: Option<ServerError>) -> Option<ServerErrorView> {
    match error {
        Some(error) => Some(error@),
        None => None,
    }
}

/// The setup of the listening socket, as a machine that the driver runs.
#[derive(Debug)]
pub struct SocketSetup {
    path: String,
    parent: Option<String>,
    pending: SetupAction,
    error: Option<ServerError>,
}

impl View for SocketSetup {
    type V = SetupView;

    closed spec fn view(&self) -> SetupView {
        SetupView {
            path: self.path@,
            parent: text_of(self.parent),
            pending: self.pending,
            error: error_view(self.error),
        }
    }
}

/// How a setup ended.
#[derive(Debug)]
pub enum SetupOutcome {
    /// The listener is bound; the guard sees to the socket file.
    Bound(SocketCleanup),
    /// The setup failed.
    Failed(ServerError),
    /// The setup is not over.
    Unfinished(SocketSetup),
}

impl SocketSetup {
    #[verifier::type_invariant]
    spec fn well_formed(&self) -> bool {
        self@.wf()
    }

    /// The setup of the socket at `path`.
    pub fn begin(path: String) -> (setup: SocketSetup)
        ensures
            setup@ == SetupView::initial(path@, parent_of(path@)),
            setup@.wf(),
    {
        let dir = parent(path.as_str());
        SocketSetup::with_parent(path, dir)
    }

    /// The setup of the socket at `path`, given the parent of `path` by the
    /// path rules.
    pub fn with_parent(path: String, parent: Option<String>) -> (setup: SocketSetup)
        ensures
            setup@ == SetupView::initial(path@, text_of(parent)),
            setup@.wf(),
    {
        let parent = match parent {
            Some(dir) => if dir.as_str().is_empty() {
                None
            } else {
                Some(dir)
            },
            None => None,
        };
        let pending = if parent.is_some() {
            SetupAction::CreateParent
        } else {
            SetupAction::Probe
        };
        SocketSetup { path, parent, pending, error: None }
    }

    /// What the driver does next.
    pub fn pending(&self) -> (action: SetupAction)
        ensures
            action == self@.pending,
            self@.wf(),
    {
        proof {
            use_type_invariant(self);
        }
        self.pending
    }

    /// The path of the socket.
    pub fn path(&self) -> (path: &str)
        ensures
            path@ == self@.path,
    {
        self.path.as_str()
    }

    /// The directory to create before the bind, if there is one.
    pub fn parent(&self) -> (dir: Option<&str>)
        ensures
            dir is Some == self@.parent is Some,
            dir matches Some(dir) ==> Some(dir@) == self@.parent,
    {
        match &self.parent {
            Some(dir) => Some(dir.as_str()),
            None => None,
        }
    }

    fn move_to(self, pending: SetupAction) -> (next: SocketSetup)
        requires
            pending != SetupAction::Abort,
            pending != SetupAction::CreateParent,
            self@.error is None,
        ensures
            next@ == self@.moved_to(pending),
    {
        SocketSetup { path: self.path, parent: self.parent, pending, error: self.error }
    }

    fn fail(self, failure: ServerFailure, cause: String) -> (next: SocketSetup)
        ensures
            next@ == self@.failed(failure, cause@),
    {
        let error = ServerError::new(failure, self.path.as_str(), cause);
        SocketSetup {
            path: self.path,
            parent: self.parent,
            pending: SetupAction::Abort,
            error: Some(error),
        }
    }

    /// Takes the driver's report of what came of the pending action and
    /// moves the setup on. An event that does not answer the pending action
    /// is ignored.
    pub fn advance(self, event: SetupEvent) -> (next: SocketSetup)
        ensures
            next@ == self@.step(event),
            next@.wf(),
    {
        proof {
            use_type_invariant(&self);
        }
        match (self.pending, event) {
            (SetupAction::CreateParent, SetupEvent::ParentCreated(Ok(_))) => self.move_to(
                SetupAction::Probe,
            ),
            (SetupAction::CreateParent, SetupEvent::ParentCreated(Err(cause))) => self.fail(
                ServerFailure::CreateParent,
                cause,
            ),
            (SetupAction::Probe, SetupEvent::Probed(exists)) => {
                let pending = if exists {
                    SetupAction::RemoveStale
                } else {
                    SetupAction::Bind
                };
                self.move_to(pending)
            },
            (SetupAction::RemoveStale, SetupEvent::StaleRemoved(Ok(_))) => self.move_to(
                SetupAction::Bind,
            ),
            (SetupAction::RemoveStale, SetupEvent::StaleRemoved(Err(cause))) => self.fail(
                ServerFailure::RemoveStale,
                cause,
            ),
            (SetupAction::Bind, SetupEvent::Bound(Ok(_))) => self.move_to(SetupAction::Serve),
            (SetupAction::Bind, SetupEvent::Bound(Err(cause))) => self.fail(
                ServerFailure::Bind,
                cause,
            ),
            _ => self,
        }
    }

    /// Ends the setup. A bound socket gets its guard, armed, for the path
    /// that was bound; a failed setup hands out its error and leaves no
    /// guard; a setup that is not over comes back as it is.
    pub fn finish(self) -> (outcome: SetupOutcome)
        ensures
            match outcome {
                SetupOutcome::Bound(guard) => self@.pending == SetupAction::Serve && guard@ == (
                CleanupView { path: self@.path, armed: true }),
                SetupOutcome::Failed(error) => self@.pending == SetupAction::Abort && Some(error@)
                    == self@.error,
                SetupOutcome::Unfinished(setup) => self@.pending != SetupAction::Serve
                    && self@.pending != SetupAction::Abort && setup == self,
            },
    {
        proof {
            use_type_invariant(&self);
        }
        match self.pending {
            SetupAction::Serve => SetupOutcome::Bound(SocketCleanup::new(self.path)),
            SetupAction::Abort => match self.error {
                Some(error) => SetupOutcome::Failed(error),
                None => SetupOutcome::Unfinished(self),
            },
            _ => SetupOutcome::Unfinished(self),
        }
    }
}

/// Every step of a setup keeps what holds of every setup.
pub proof fn lemma_setup_step_keeps_wf(setup: SetupView, event: SetupEvent)
    requires
        setup.wf(),
    ensures
        setup.step(event).wf(),
{
}

/// A file found at the socket's path does not fail the setup: it is removed,
/// and once it is gone the socket is bound.
pub proof fn lemma_stale_socket_replaced(setup: SetupView)
    requires
        setup.wf(),
        setup.pending == SetupAction::Probe,
    ensures
        setup.step(SetupEvent::Probed(true)).pending == SetupAction::RemoveStale,
        setup.step(SetupEvent::Probed(true)).error is None,
        setup.step(SetupEvent::Probed(true)).step(SetupEvent::StaleRemoved(Ok(()))).pending
            == SetupAction::Bind,
{
}

} // verus!
