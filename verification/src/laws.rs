//! What holds of every supervisor, whatever the host application reports
//! and in whatever order.

use vstd::multiset::Multiset;
use vstd::prelude::*;
use crate::failure::Failure;
use crate::mode::LaunchMode;
use crate::protocol::{ActionView, Event, Stage};
use crate::supervisor::SupervisorView;

verus! {

/// The handles behind an optional handle: one or none.
pub open spec fn handles<H>(handle: Option<H>) -> Multiset<H> {
    match handle {
        Some(handle) => Multiset::singleton(handle),
        None => Multiset::empty(),
    }
}

/// The supervisor after a sequence of events, each delivered in turn.
pub open spec fn run<H>(start: SupervisorView<H>, events: Seq<Event<H>>) -> SupervisorView<H>
    decreases events.len(),
{
    if events.len() == 0 {
        start
    } else {
        run(start, events.drop_last()).deliver(events.last())
    }
}

/// How many handles the supervisor took over in the course of a run.
pub open spec fn registrations<H>(start: SupervisorView<H>, events: Seq<Event<H>>) -> nat
    decreases events.len(),
{
    if events.len() == 0 {
        0
    } else {
        let before = run(start, events.drop_last());
        let taken: nat = if events.last() is Spawned && before.accepts(events.last()) {
            1
        } else {
            0
        };
        registrations(start, events.drop_last()) + taken
    }
}

/// How often, in the course of a run, the supervisor asked for an action
/// of the wanted kind.
pub open spec fn times_asked<H>(
    start: SupervisorView<H>,
    events: Seq<Event<H>>,
    wanted: spec_fn(ActionView<H>) -> bool,
) -> nat
    decreases events.len(),
{
    if events.len() == 0 {
        0
    } else {
        let before = run(start, events.drop_last());
        let asked: nat = if before.accepts(events.last()) && wanted(
            before.after(events.last()).1,
        ) {
            1
        } else {
            0
        };
        times_asked(start, events.drop_last(), wanted) + asked
    }
}

/// A handle is taken over at most once. After a registration that
/// succeeded, a second one is turned down: the second handle comes back and
/// the supervisor still owns the first.
pub proof fn law_second_registration_is_rejected<H>(
    supervisor: SupervisorView<H>,
    first: H,
    second: H,
)
    requires
        supervisor.after_register(first).1 is Ok,
    ensures
        supervisor.after_register(first).0.stage == Stage::Running(first),
        supervisor.after_register(first).0.after_register(second) == (
            supervisor.after_register(first).0,
            Err::<(), H>(second),
        ),
        !supervisor.after_register(first).0.accepts(Event::Spawned(second)),
{
}

/// A second shutdown does nothing: it gives up no handle, asks for nothing
/// and leaves the supervisor as the first shutdown left it.
pub proof fn law_second_shutdown_is_a_no_op<H>(supervisor: SupervisorView<H>)
    ensures
        supervisor.after_shutdown().0.after_shutdown() == (
            supervisor.after_shutdown().0,
            None::<H>,
        ),
        supervisor.after_shutdown().0.after(Event::Teardown) == (
            supervisor.after_shutdown().0,
            ActionView::<H>::Nothing,
        ),
{
}

/// Transitions only go forward: an event either leaves the supervisor as
/// it is or takes it to a stage that is further on.
pub proof fn law_transitions_go_forward<H>(supervisor: SupervisorView<H>, event: Event<H>)
    ensures
        supervisor.deliver(event) == supervisor || supervisor.deliver(event).stage.progress()
            > supervisor.stage.progress(),
{
}

/// Nothing follows a terminal stage. Only a teardown is in order there,
/// and it asks for nothing.
pub proof fn law_terminal_stage_is_final<H>(supervisor: SupervisorView<H>, event: Event<H>)
    requires
        supervisor.stage.is_terminal(),
    ensures
        supervisor.deliver(event) == supervisor,
        supervisor.accepts(event) <==> event is Teardown,
        supervisor.accepts(event) ==> supervisor.after(event).1 == ActionView::<H>::Nothing,
{
}

/// The launch mode and the host family are fixed when the supervisor is
/// made. No event changes them.
pub proof fn law_configuration_is_fixed<H>(supervisor: SupervisorView<H>, event: Event<H>)
    ensures
        supervisor.deliver(event).mode == supervisor.mode,
        supervisor.deliver(event).host == supervisor.host,
{
}

/// No handle is lost and none is made up. The handles that the supervisor
/// owns and the event brings are, after an event that is in order, the
/// handles that the supervisor owns and the action gives to the host.
pub proof fn law_no_handle_is_lost<H>(supervisor: SupervisorView<H>, event: Event<H>)
    requires
        supervisor.accepts(event),
    ensures
        handles(supervisor.stage.handle()).add(handles(event.carried())) == handles(
            supervisor.after(event).0.stage.handle(),
        ).add(handles(supervisor.after(event).1.released())),
{
    let before = handles(supervisor.stage.handle()).add(handles(event.carried()));
    let after = handles(supervisor.after(event).0.stage.handle()).add(
        handles(supervisor.after(event).1.released()),
    );
    assert(before =~= after);
}

/// Startup is aborted for a fatal failure and for nothing else: a process
/// that could not be created, in either mode, or a program that is missing
/// from a development build. The supervisor then stays aborted with that
/// failure.
pub proof fn law_abort_means_fatal_failure<H>(supervisor: SupervisorView<H>, event: Event<H>)
    requires
        supervisor.accepts(event),
    ensures
        (supervisor.after(event).1 is Abort) <==> (event matches Event::Failed(failure)
            && failure.is_fatal_in(supervisor.mode)),
        supervisor.after(event).1 matches ActionView::Abort(failure) ==> (event == Event::<
            H,
        >::Failed(failure) && supervisor.after(event).0.stage == Stage::<H>::Aborted(failure)),
{
}

/// Only a production build goes on without its sidecar, and only because
/// the sidecar was not found: before any process was created.
pub proof fn law_only_production_skips<H>(supervisor: SupervisorView<H>, event: Event<H>)
    requires
        supervisor.accepts(event),
        !(supervisor.stage is Skipped),
        (supervisor.after(event).0.stage is Skipped),
    ensures
        supervisor.mode == LaunchMode::Production,
        supervisor.stage.awaits_location(),
        event == Event::<H>::Failed(Failure::ExecutableNotFound) || event == Event::<H>::Failed(
            Failure::ResolutionFailure,
        ),
        supervisor.after(event).1 == ActionView::<H>::Proceed,
{
}

/// The application data directory is dealt with before the sidecar is
/// launched. In a development build the supervisor asks for the sidecar to
/// be located only in answer to the outcome of the preparation, whether it
/// succeeded or not, and asks for the process only once the sidecar is
/// located.
pub proof fn law_environment_comes_first<H>(supervisor: SupervisorView<H>, event: Event<H>)
    requires
        supervisor.accepts(event),
        supervisor.mode == LaunchMode::Development,
    ensures
        (supervisor.after(event).1 is Locate) ==> supervisor.stage.awaits_environment() && (event
            == Event::<H>::EnvironmentPrepared || event == Event::<H>::Failed(
            Failure::DirectoryPrepFailure,
        )),
        (supervisor.after(event).1 is Spawn) ==> supervisor.stage.awaits_location() && event
            == Event::<H>::Located,
{
}

/// A failure to prepare the application data directory is passed over:
/// wherever it is in order, the supervisor goes on exactly as it does when
/// the directory was prepared.
pub proof fn law_directory_failure_is_passed_over<H>(supervisor: SupervisorView<H>)
    ensures
        supervisor.accepts(Event::Failed(Failure::DirectoryPrepFailure)) ==> supervisor.accepts(
            Event::EnvironmentPrepared,
        ),
        supervisor.accepts(Event::Failed(Failure::DirectoryPrepFailure)) ==> supervisor.after(
            Event::Failed(Failure::DirectoryPrepFailure),
        ) == supervisor.after(Event::EnvironmentPrepared),
{
}

/// A run never goes back: whatever events are delivered, the supervisor
/// ends at least as far on as it began, with the mode and host it had.
pub proof fn law_run_goes_forward<H>(start: SupervisorView<H>, events: Seq<Event<H>>)
    ensures
        run(start, events).stage.progress() >= start.stage.progress(),
        run(start, events).mode == start.mode,
        run(start, events).host == start.host,
    decreases events.len(),
{
    if events.len() > 0 {
        law_run_goes_forward(start, events.drop_last());
        law_transitions_go_forward(run(start, events.drop_last()), events.last());
    }
}

/// At most one sidecar exists in the life of the application. In a run
/// from the beginning, whatever events are delivered, the supervisor takes
/// over one handle if it reaches the stage at which the sidecar runs or
/// has been given up for termination, and none otherwise. An application
/// that was aborted or that goes on without a sidecar never had a process.
pub proof fn law_one_sidecar_per_run<H>(start: SupervisorView<H>, events: Seq<Event<H>>)
    requires
        start.stage is Uninitialized,
    ensures
        registrations(start, events) <= 1,
        registrations(start, events) == 1 <==> (run(start, events).stage is Running || run(
            start,
            events,
        ).stage is Terminated),
    decreases events.len(),
{
    if events.len() > 0 {
        law_one_sidecar_per_run(start, events.drop_last());
    }
}

/// Every step of bringing the sidecar up and down is taken at most once.
/// In a run from the beginning, whatever events are delivered, the
/// supervisor asks at most once for the application data directory, and
/// never in a production build; at most once each for the sidecar to be
/// located, its process to be created and its process to be terminated;
/// and it tells the application at most once to go on or to end.
pub proof fn law_each_action_is_asked_once<H>(start: SupervisorView<H>, events: Seq<Event<H>>)
    requires
        start.stage is Uninitialized,
    ensures
        times_asked(start, events, |action: ActionView<H>| action is PrepareEnvironment) <= 1,
        start.mode == LaunchMode::Production ==> times_asked(
            start,
            events,
            |action: ActionView<H>| action is PrepareEnvironment,
        ) == 0,
        times_asked(start, events, |action: ActionView<H>| action is Locate) <= 1,
        times_asked(start, events, |action: ActionView<H>| action is Spawn) <= 1,
        times_asked(start, events, |action: ActionView<H>| action is Terminate) <= 1,
        times_asked(
            start,
            events,
            |action: ActionView<H>| action is Proceed || action is Abort,
        ) <= 1,
{
    lemma_actions_follow_progress(start, events);
}

/// How often each action was asked for in a run from the beginning, by the
/// stage that the run has reached.
proof fn lemma_actions_follow_progress<H>(start: SupervisorView<H>, events: Seq<Event<H>>)
    requires
        start.stage is Uninitialized,
    ensures
        run(start, events).stage_fits_mode(),
        run(start, events).mode == start.mode,
        times_asked(start, events, |action: ActionView<H>| action is PrepareEnvironment) == 1
            <==> (run(start, events).stage.progress() >= 1 && start.mode
            == LaunchMode::Development),
        times_asked(start, events, |action: ActionView<H>| action is PrepareEnvironment) <= 1,
        times_asked(start, events, |action: ActionView<H>| action is Locate) == 1 <==> run(
            start,
            events,
        ).stage.progress() >= 2,
        times_asked(start, events, |action: ActionView<H>| action is Locate) <= 1,
        times_asked(start, events, |action: ActionView<H>| action is Spawn) == 1 <==> run(
            start,
            events,
        ).stage.was_launched(),
        times_asked(start, events, |action: ActionView<H>| action is Spawn) <= 1,
        times_asked(start, events, |action: ActionView<H>| action is Terminate) == 1 <==> (run(
            start,
            events,
        ).stage is Terminated),
        times_asked(start, events, |action: ActionView<H>| action is Terminate) <= 1,
        times_asked(
            start,
            events,
            |action: ActionView<H>| action is Proceed || action is Abort,
        ) == 1 <==> run(start, events).stage.progress() >= 4,
        times_asked(
            start,
            events,
            |action: ActionView<H>| action is Proceed || action is Abort,
        ) <= 1,
    decreases events.len(),
{
    if events.len() > 0 {
        lemma_actions_follow_progress(start, events.drop_last());
    }
}

/// A run keeps to the stages that the launch mode allows. From a stage
/// that fits the mode, as the first one does, every stage that is reached
/// fits it: the environment is waited for only in a development build, the
/// application goes on without a sidecar only in a production build, and
/// startup is aborted only for a failure that is fatal in the mode.
pub proof fn law_stage_fits_mode<H>(start: SupervisorView<H>, events: Seq<Event<H>>)
    requires
        start.stage_fits_mode(),
    ensures
        run(start, events).stage_fits_mode(),
        SupervisorView::<H>::initial(start.mode, start.host).stage_fits_mode(),
    decreases events.len(),
{
    if events.len() > 0 {
        law_stage_fits_mode(start, events.drop_last());
        law_run_goes_forward(start, events.drop_last());
    }
}

} // verus!
