//! The vocabulary that the supervisor and the host application share: the
//! stages of one application run, the events that the host reports and the
//! actions that the supervisor asks for.

use vstd::prelude::*;
use crate::descriptor::{DescriptorView, SidecarDescriptor};
use crate::failure::Failure;

verus! {

/// Where one application run stands, without what it holds.
#[derive(Clone, Copy, Debug, PartialEq, Eq, Structural)]
pub enum Phase {
    /// Nothing has happened yet.
    Uninitialized,
    /// The sidecar is being located.
    Resolving,
    /// The sidecar's program was found and its process is being created.
    Launching,
    /// The sidecar's process runs and the supervisor owns its handle.
    Running,
    /// The handle was given up for termination.
    Terminated,
    /// The application runs without a sidecar. No process was ever created.
    Skipped,
    /// A fatal failure ended startup.
    Aborted,
}

/// Where one application run stands, with what it holds. `H` is the host's
/// handle of a running process. The supervisor never looks inside it.
#[derive(Debug, PartialEq, Eq)]
pub enum Stage<H> {
    /// Nothing has happened yet.
    Uninitialized,
    /// The sidecar is being located. `environment_settled` says whether the
    /// application data directory has been dealt with, successfully or not.
    Resolving { environment_settled: bool },
    /// The sidecar's program was found and its process is being created.
    Launching,
    /// The sidecar's process runs and this is its handle.
    Running(H),
    /// The handle was given up for termination.
    Terminated,
    /// The application runs without a sidecar. No process was ever created.
    Skipped,
    /// The given failure ended startup.
    Aborted(Failure),
}

/// What the host application reports to the supervisor.
#[derive(Debug, PartialEq, Eq)]
pub enum Event<H> {
    /// The application's setup has begun.
    Start,
    /// The application data directory exists.
    EnvironmentPrepared,
    /// The sidecar's program was found.
    Located,
    /// The sidecar's process was created and this is its handle.
    Spawned(H),
    /// The action that was asked for failed in the given way.
    Failed(Failure),
    /// The application's state is being torn down.
    Teardown,
}

/// What the supervisor asks the host application to do next.
#[derive(Debug, PartialEq, Eq)]
pub enum Action<H> {
    /// Create the application data directory with all missing parents,
    /// then report `EnvironmentPrepared` or `Failed(DirectoryPrepFailure)`.
    PrepareEnvironment,
    /// Find the program that the descriptor names, then report `Located`,
    /// `Failed(ExecutableNotFound)` or `Failed(ResolutionFailure)`.
    Locate(SidecarDescriptor),
    /// Create the process that the descriptor describes without waiting
    /// for it, then report `Spawned` or `Failed(SpawnFailed)`.
    Spawn(SidecarDescriptor),
    /// Go on with the application's startup.
    Proceed,
    /// Tell the user of the failure and end the application.
    Abort(Failure),
    /// Terminate the process behind the handle. A process that has already
    /// exited is left alone.
    Terminate(H),
    /// Nothing is to be done.
    Nothing,
}

/// An action as a mathematical value.
pub enum ActionView<H> {
    PrepareEnvironment,
    Locate(DescriptorView),
    Spawn(DescriptorView),
    Proceed,
    Abort(Failure),
    Terminate(H),
    Nothing,
}

impl<H> View for Action<H> {
    type V = ActionView<H>;

    open spec fn view(&self) -> ActionView<H> {
        match *self {
            Action::PrepareEnvironment => ActionView::PrepareEnvironment,
            Action::Locate(descriptor) => ActionView::Locate(descriptor@),
            Action::Spawn(descriptor) => ActionView::Spawn(descriptor@),
            Action::Proceed => ActionView::Proceed,
            Action::Abort(failure) => ActionView::Abort(failure),
            Action::Terminate(handle) => ActionView::Terminate(handle),
            Action::Nothing => ActionView::Nothing,
        }
    }
}

impl<H> Event<H> {
    /// The handle that an event brings with it, if it brings one.
    pub open spec fn carried(self) -> Option<H> {
        match self {
            Event::Spawned(handle) => Some(handle),
            _ => None,
        }
    }
}

impl<H> ActionView<H> {
    /// The handle that an action gives to the host, if it gives one.
    pub open spec fn released(self) -> Option<H> {
        match self {
            ActionView::Terminate(handle) => Some(handle),
            _ => None,
        }
    }
}

impl<H> Stage<H> {
    /// The phase of a stage.
    pub open spec fn phase(self) -> Phase {
        match self {
            Stage::Uninitialized => Phase::Uninitialized,
            Stage::Resolving { .. } => Phase::Resolving,
            Stage::Launching => Phase::Launching,
            Stage::Running(_) => Phase::Running,
            Stage::Terminated => Phase::Terminated,
            Stage::Skipped => Phase::Skipped,
            Stage::Aborted(_) => Phase::Aborted,
        }
    }

    /// The handle that is owned at a stage, if there is one.
    pub open spec fn handle(self) -> Option<H> {
        match self {
            Stage::Running(handle) => Some(handle),
            _ => None,
        }
    }

    /// The failure that ended startup at a stage, if one did.
    pub open spec fn failure(self) -> Option<Failure> {
        match self {
            Stage::Aborted(failure) => Some(failure),
            _ => None,
        }
    }

    /// Whether the outcome of preparing the application data directory is
    /// waited for.
    pub open spec fn awaits_environment(self) -> bool {
        self == Stage::<H>::Resolving { environment_settled: false }
    }

    /// Whether the outcome of locating the sidecar's program is waited for.
    pub open spec fn awaits_location(self) -> bool {
        self == Stage::<H>::Resolving { environment_settled: true }
    }

    /// Whether the creation of the sidecar's process has been asked for.
    pub open spec fn was_launched(self) -> bool {
        self is Launching || self is Running || self is Terminated || self == Stage::<H>::Aborted(
            Failure::SpawnFailed,
        )
    }

    /// Whether nothing can follow the stage.
    pub open spec fn is_terminal(self) -> bool {
        self is Terminated || self is Skipped || self is Aborted
    }

    /// How far a run has come. No transition makes it smaller.
    pub open spec fn progress(self) -> nat {
        match self {
            Stage::Uninitialized => 0,
            Stage::Resolving { environment_settled } => if environment_settled {
                2
            } else {
                1
            },
            Stage::Launching => 3,
            Stage::Running(_) => 4,
            Stage::Terminated | Stage::Skipped | Stage::Aborted(_) => 5,
        }
    }
}

} // verus!
