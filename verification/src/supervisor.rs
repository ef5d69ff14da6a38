//! The supervisor: the one owner of the sidecar's handle, and the rules by
//! which an application run moves from stage to stage.

use vstd::prelude::*;
use crate::descriptor::{resolve_descriptor, resolved, SidecarDescriptor};
use crate::failure::{disposition, Disposition, Failure};
use crate::mode::{HostFamily, LaunchMode};
use crate::protocol::{Action, ActionView, Event, Phase, Stage};

verus! {

/// A supervisor as a mathematical value.
pub struct SupervisorView<H> {
    pub mode: LaunchMode,
    pub host: HostFamily,
    pub stage: Stage<H>,
}

impl<H> SupervisorView<H> {
    /// A supervisor before anything has happened.
    pub open spec fn initial(mode: LaunchMode, host: HostFamily) -> SupervisorView<H> {
        SupervisorView { mode, host, stage: Stage::Uninitialized }
    }

    /// The same supervisor at another stage.
    pub open spec fn at(self, stage: Stage<H>) -> SupervisorView<H> {
        SupervisorView { mode: self.mode, host: self.host, stage }
    }

    /// Whether the stage is one that the launch mode allows.
    pub open spec fn stage_fits_mode(self) -> bool {
        match self.stage {
            Stage::Resolving { environment_settled } => environment_settled
                || self.mode.prepares_environment(),
            Stage::Skipped => self.mode == LaunchMode::Production,
            Stage::Aborted(failure) => failure.is_fatal_in(self.mode),
            _ => true,
        }
    }

    /// Whether the supervisor waits for the given failure: the failure can
    /// come up in this mode, and it is a failure of the action that was
    /// asked for last.
    pub open spec fn awaits_failure(self, failure: Failure) -> bool {
        failure.arises_in(self.mode) && match failure {
            Failure::DirectoryPrepFailure => self.stage.awaits_environment(),
            Failure::ResolutionFailure | Failure::ExecutableNotFound => self.stage.awaits_location(),
            Failure::SpawnFailed => self.stage is Launching,
        }
    }

    /// Whether the event is in order at this stage. A teardown always is.
    pub open spec fn accepts(self, event: Event<H>) -> bool {
        match event {
            Event::Start => self.stage is Uninitialized,
            Event::EnvironmentPrepared => self.stage.awaits_environment(),
            Event::Located => self.stage.awaits_location(),
            Event::Spawned(_) => self.stage is Launching,
            Event::Failed(failure) => self.awaits_failure(failure),
            Event::Teardown => true,
        }
    }

    /// The supervisor after it was offered a handle, and what the offer came
    /// to. The handle is taken while the process is being launched, and
    /// comes back at every other stage.
    pub open spec fn after_register(self, handle: H) -> (SupervisorView<H>, Result<(), H>) {
        if self.stage is Launching {
            (self.at(Stage::Running(handle)), Ok(()))
        } else {
            (self, Err(handle))
        }
    }

    /// The supervisor after a shutdown, and the handle that it gave up.
    pub open spec fn after_shutdown(self) -> (SupervisorView<H>, Option<H>) {
        match self.stage {
            Stage::Running(handle) => (self.at(Stage::Terminated), Some(handle)),
            _ => (self, None),
        }
    }

    /// The supervisor after an event that is in order, and the action that
    /// it asks for.
    pub open spec fn after(self, event: Event<H>) -> (SupervisorView<H>, ActionView<H>) {
        let descriptor = resolved(self.mode, self.host);
        let settled = self.at(Stage::Resolving { environment_settled: true });
        match event {
            Event::Start => if self.mode.prepares_environment() {
                (
                    self.at(Stage::Resolving { environment_settled: false }),
                    ActionView::PrepareEnvironment,
                )
            } else {
                (settled, ActionView::Locate(descriptor))
            },
            Event::EnvironmentPrepared => (settled, ActionView::Locate(descriptor)),
            Event::Located => (self.at(Stage::Launching), ActionView::Spawn(descriptor)),
            Event::Spawned(handle) => (self.after_register(handle).0, ActionView::Proceed),
            Event::Failed(failure) => if failure.is_discarded_in(self.mode) {
                (settled, ActionView::Locate(descriptor))
            } else if failure.is_recovered_in(self.mode) {
                (self.at(Stage::Skipped), ActionView::Proceed)
            } else {
                (self.at(Stage::Aborted(failure)), ActionView::Abort(failure))
            },
            Event::Teardown => (
                self.after_shutdown().0,
                match self.after_shutdown().1 {
                    Some(handle) => ActionView::Terminate(handle),
                    None => ActionView::Nothing,
                },
            ),
        }
    }

    /// The supervisor after an event, in order or not. One that is out of
    /// order changes nothing.
    pub open spec fn deliver(self, event: Event<H>) -> SupervisorView<H> {
        if self.accepts(event) {
            self.after(event).0
        } else {
            self
        }
    }
}

/// Supervises the one sidecar of an application. It holds the handle of the
/// running process from registration until shutdown and hands it to nobody
/// in between.
pub struct Supervisor<H> {
    mode: LaunchMode,
    host: HostFamily,
    stage: Stage<H>,
}

impl<H> View for Supervisor<H> {
    type V = SupervisorView<H>;

    closed spec fn view(&self) -> SupervisorView<H> {
        SupervisorView { mode: self.mode, host: self.host, stage: self.stage }
    }
}

impl<H> Supervisor<H> {
    /// Every supervisor stands at a stage that its launch mode allows.
    #[verifier::type_invariant]
    closed spec fn stage_is_allowed(self) -> bool {
        self@.stage_fits_mode()
    }

    /// A supervisor for one application run, before anything has happened.
    pub fn new(mode: LaunchMode, host: HostFamily) -> (supervisor: Supervisor<H>)
        ensures
            supervisor@ == SupervisorView::<H>::initial(mode, host),
    {
        Supervisor { mode, host, stage: Stage::Uninitialized }
    }

    /// The launch mode that the supervisor was made for.
    pub fn mode(&self) -> (mode: LaunchMode)
        ensures
            mode == self@.mode,
    {
        self.mode
    }

    /// The host family that the supervisor was made for.
    pub fn host(&self) -> (host: HostFamily)
        ensures
            host == self@.host,
    {
        self.host
    }

    /// Where the run stands. The stage is always one that the launch mode
    /// allows.
    pub fn phase(&self) -> (phase: Phase)
        ensures
            phase == self@.stage.phase(),
            self@.stage_fits_mode(),
    {
        proof {
            use_type_invariant(self);
        }
        match &self.stage {
            Stage::Uninitialized => Phase::Uninitialized,
            Stage::Resolving { .. } => Phase::Resolving,
            Stage::Launching => Phase::Launching,
            Stage::Running(_) => Phase::Running,
            Stage::Terminated => Phase::Terminated,
            Stage::Skipped => Phase::Skipped,
            Stage::Aborted(_) => Phase::Aborted,
        }
    }

    /// Whether a handle is owned.
    pub fn is_running(&self) -> (running: bool)
        ensures
            running == self@.stage.handle().is_some(),
    {
        match &self.stage {
            Stage::Running(_) => true,
            _ => false,
        }
    }

    /// The handle that is owned, for looking at. Ownership stays with the
    /// supervisor.
    pub fn handle(&self) -> (handle: Option<&H>)
        ensures
            match handle {
                Some(handle) => self@.stage.handle() == Some(*handle),
                None => self@.stage.handle().is_none(),
            },
    {
        match &self.stage {
            Stage::Running(handle) => Some(handle),
            _ => None,
        }
    }

    /// The failure that ended startup, if one did. It is a failure that is
    /// fatal in the supervisor's launch mode.
    pub fn failure(&self) -> (failure: Option<Failure>)
        ensures
            failure == self@.stage.failure(),
            failure matches Some(failure) ==> failure.is_fatal_in(self@.mode),
    {
        proof {
            use_type_invariant(self);
        }
        match &self.stage {
            Stage::Aborted(failure) => Some(*failure),
            _ => None,
        }
    }

    /// The sidecar's descriptor for this supervisor's mode and host.
    pub fn descriptor(&self) -> (descriptor: SidecarDescriptor)
        ensures
            descriptor@ == resolved(self@.mode, self@.host),
    {
        resolve_descriptor(self.mode, self.host)
    }

    /// Takes ownership of the handle of the process that was just created.
    /// This succeeds once, while the process is being launched. At any
    /// other stage the handle comes back and nothing changes: a handle that
    /// is already owned is never overwritten.
    pub fn register(&mut self, handle: H) -> (result: Result<(), H>)
        ensures
            (final(self)@, result) == old(self)@.after_register(handle),
    {
        match &self.stage {
            Stage::Launching => {
                self.stage = Stage::Running(handle);
                Ok(())
            },
            _ => Err(handle),
        }
    }

    /// Gives up the handle so that the process behind it can be terminated.
    /// Where no handle is owned, nothing changes and nothing is returned,
    /// so a second shutdown is harmless.
    pub fn shutdown(&mut self) -> (released: Option<H>)
        ensures
            (final(self)@, released) == old(self)@.after_shutdown(),
    {
        proof {
            use_type_invariant(&*self);
        }
        let mut stage = Stage::Terminated;
        core::mem::swap(&mut self.stage, &mut stage);
        match stage {
            Stage::Running(handle) => Some(handle),
            other => {
                self.stage = other;
                None
            },
        }
    }

    /// Takes an event from the host application and answers with the
    /// action to perform next. An event that is out of order at the current
    /// stage comes back and changes nothing.
    pub fn step(&mut self, event: Event<H>) -> (result: Result<Action<H>, Event<H>>)
        ensures
            match result {
                Ok(action) => old(self)@.accepts(event) && final(self)@ == old(self)@.after(
                    event,
                ).0 && action@ == old(self)@.after(event).1,
                Err(back) => !old(self)@.accepts(event) && back == event && final(self)@ == old(
                    self,
                )@,
            },
    {
        match event {
            Event::Start => match &self.stage {
                Stage::Uninitialized => {
                    if self.mode.needs_environment() {
                        self.stage = Stage::Resolving { environment_settled: false };
                        Ok(Action::PrepareEnvironment)
                    } else {
                        self.stage = Stage::Resolving { environment_settled: true };
                        Ok(Action::Locate(self.descriptor()))
                    }
                },
                _ => Err(Event::Start),
            },
            Event::EnvironmentPrepared => match &self.stage {
                Stage::Resolving { environment_settled: false } => {
                    self.stage = Stage::Resolving { environment_settled: true };
                    Ok(Action::Locate(self.descriptor()))
                },
                _ => Err(Event::EnvironmentPrepared),
            },
            Event::Located => match &self.stage {
                Stage::Resolving { environment_settled: true } => {
                    self.stage = Stage::Launching;
                    Ok(Action::Spawn(self.descriptor()))
                },
                _ => Err(Event::Located),
            },
            Event::Spawned(handle) => match self.register(handle) {
                Ok(_) => Ok(Action::Proceed),
                Err(back) => Err(Event::Spawned(back)),
            },
            Event::Failed(failure) => {
                if self.awaits(failure) {
                    match disposition(self.mode, failure) {
                        Some(Disposition::Discarded) => {
                            self.stage = Stage::Resolving { environment_settled: true };
                            Ok(Action::Locate(self.descriptor()))
                        },
                        Some(Disposition::Recovered) => {
                            self.stage = Stage::Skipped;
                            Ok(Action::Proceed)
                        },
                        _ => {
                            self.stage = Stage::Aborted(failure);
                            Ok(Action::Abort(failure))
                        },
                    }
                } else {
                    Err(Event::Failed(failure))
                }
            },
            Event::Teardown => match self.shutdown() {
                Some(handle) => Ok(Action::Terminate(handle)),
                None => Ok(Action::Nothing),
            },
        }
    }

    /// Whether the supervisor waits for the given failure.
    pub fn awaits(&self, failure: Failure) -> (awaited: bool)
        ensures
            awaited == self@.awaits_failure(failure),
    {
        match failure {
            Failure::DirectoryPrepFailure => match (&self.stage, self.mode) {
                (Stage::Resolving { environment_settled: false }, LaunchMode::Development) => true,
                _ => false,
            },
            Failure::ResolutionFailure => match (&self.stage, self.mode) {
                (Stage::Resolving { environment_settled: true }, LaunchMode::Production) => true,
                _ => false,
            },
            Failure::ExecutableNotFound => match &self.stage {
                Stage::Resolving { environment_settled: true } => true,
                _ => false,
            },
            Failure::SpawnFailed => match &self.stage {
                Stage::Launching => true,
                _ => false,
            },
        }
    }
}

} // verus!
