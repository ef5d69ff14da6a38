use sidecar_supervisor::descriptor::resolve_descriptor;
use sidecar_supervisor::failure::Failure;
use sidecar_supervisor::mode::{HostFamily, LaunchMode};
use sidecar_supervisor::protocol::{Action, Event, Phase};
use sidecar_supervisor::supervisor::Supervisor;

fn development() -> Supervisor<u32> {
    Supervisor::new(LaunchMode::Development, HostFamily::Other)
}

fn production() -> Supervisor<u32> {
    Supervisor::new(LaunchMode::Production, HostFamily::Other)
}

fn launching(mut supervisor: Supervisor<u32>) -> Supervisor<u32> {
    if supervisor.step(Event::Start) == Ok(Action::PrepareEnvironment) {
        assert!(supervisor.step(Event::EnvironmentPrepared).is_ok());
    }
    assert!(supervisor.step(Event::Located).is_ok());
    assert_eq!(supervisor.phase(), Phase::Launching);
    supervisor
}

#[test]
fn a_new_supervisor_is_uninitialized() {
    let supervisor: Supervisor<u32> = Supervisor::new(LaunchMode::Production, HostFamily::Windows);
    assert_eq!(supervisor.phase(), Phase::Uninitialized);
    assert_eq!(supervisor.mode(), LaunchMode::Production);
    assert_eq!(supervisor.host(), HostFamily::Windows);
    assert!(!supervisor.is_running());
    assert_eq!(supervisor.handle(), None);
    assert_eq!(supervisor.failure(), None);
}

#[test]
fn the_supervisor_resolves_the_descriptor_of_its_mode_and_host() {
    let supervisor: Supervisor<u32> = Supervisor::new(LaunchMode::Development, HostFamily::Windows);
    assert_eq!(supervisor.descriptor().program(), "python");
    assert_eq!(production().descriptor().program(), "flask_sidecar");
}

#[test]
fn development_with_interpreter_present_launches_and_proceeds() {
    let mut supervisor = development();
    let descriptor = || resolve_descriptor(LaunchMode::Development, HostFamily::Other);
    assert_eq!(supervisor.step(Event::Start), Ok(Action::PrepareEnvironment));
    assert_eq!(supervisor.phase(), Phase::Resolving);
    assert_eq!(supervisor.step(Event::EnvironmentPrepared), Ok(Action::Locate(descriptor())));
    assert_eq!(supervisor.phase(), Phase::Resolving);
    assert_eq!(supervisor.step(Event::Located), Ok(Action::Spawn(descriptor())));
    assert_eq!(supervisor.phase(), Phase::Launching);
    assert_eq!(supervisor.step(Event::Spawned(4711)), Ok(Action::Proceed));
    assert_eq!(supervisor.phase(), Phase::Running);
    assert!(supervisor.is_running());
    assert_eq!(supervisor.handle(), Some(&4711));
}

#[test]
fn development_with_interpreter_absent_aborts_startup() {
    let mut supervisor = development();
    assert_eq!(supervisor.step(Event::Start), Ok(Action::PrepareEnvironment));
    assert!(supervisor.step(Event::EnvironmentPrepared).is_ok());
    assert_eq!(
        supervisor.step(Event::Failed(Failure::ExecutableNotFound)),
        Ok(Action::Abort(Failure::ExecutableNotFound))
    );
    assert_eq!(supervisor.phase(), Phase::Aborted);
    assert_eq!(supervisor.failure(), Some(Failure::ExecutableNotFound));
    assert!(!supervisor.is_running());
}

#[test]
fn production_with_sidecar_absent_proceeds_without_a_handle() {
    let mut supervisor = production();
    let descriptor = resolve_descriptor(LaunchMode::Production, HostFamily::Other);
    assert_eq!(supervisor.step(Event::Start), Ok(Action::Locate(descriptor)));
    assert_eq!(
        supervisor.step(Event::Failed(Failure::ExecutableNotFound)),
        Ok(Action::Proceed)
    );
    assert_eq!(supervisor.phase(), Phase::Skipped);
    assert!(!supervisor.is_running());
    assert_eq!(supervisor.handle(), None);
    assert_eq!(supervisor.failure(), None);
    assert_eq!(supervisor.step(Event::Spawned(1)), Err(Event::Spawned(1)));
    assert_eq!(supervisor.step(Event::Teardown), Ok(Action::Nothing));
    assert_eq!(supervisor.phase(), Phase::Skipped);
}

#[test]
fn production_with_unresolved_sidecar_proceeds_without_a_handle() {
    let mut supervisor = production();
    assert!(supervisor.step(Event::Start).is_ok());
    assert_eq!(
        supervisor.step(Event::Failed(Failure::ResolutionFailure)),
        Ok(Action::Proceed)
    );
    assert_eq!(supervisor.phase(), Phase::Skipped);
}

#[test]
fn production_with_failed_spawn_aborts_startup() {
    let mut supervisor = production();
    let descriptor = || resolve_descriptor(LaunchMode::Production, HostFamily::Other);
    assert_eq!(supervisor.step(Event::Start), Ok(Action::Locate(descriptor())));
    assert_eq!(supervisor.step(Event::Located), Ok(Action::Spawn(descriptor())));
    assert_eq!(
        supervisor.step(Event::Failed(Failure::SpawnFailed)),
        Ok(Action::Abort(Failure::SpawnFailed))
    );
    assert_eq!(supervisor.phase(), Phase::Aborted);
    assert_eq!(supervisor.failure(), Some(Failure::SpawnFailed));
}

#[test]
fn development_with_failed_spawn_aborts_startup() {
    let mut supervisor = launching(development());
    assert_eq!(
        supervisor.step(Event::Failed(Failure::SpawnFailed)),
        Ok(Action::Abort(Failure::SpawnFailed))
    );
    assert_eq!(supervisor.phase(), Phase::Aborted);
}

#[test]
fn production_launches_the_bundled_sidecar_when_it_is_present() {
    let mut supervisor = launching(production());
    assert_eq!(supervisor.step(Event::Spawned(9)), Ok(Action::Proceed));
    assert_eq!(supervisor.phase(), Phase::Running);
    assert_eq!(supervisor.handle(), Some(&9));
}

#[test]
fn a_failed_directory_preparation_does_not_stop_the_launch() {
    let mut supervisor = development();
    let descriptor = resolve_descriptor(LaunchMode::Development, HostFamily::Other);
    assert_eq!(supervisor.step(Event::Start), Ok(Action::PrepareEnvironment));
    assert_eq!(
        supervisor.step(Event::Failed(Failure::DirectoryPrepFailure)),
        Ok(Action::Locate(descriptor))
    );
    assert_eq!(supervisor.phase(), Phase::Resolving);
    assert_eq!(supervisor.failure(), None);
    assert!(supervisor.step(Event::Located).is_ok());
    assert_eq!(supervisor.step(Event::Spawned(3)), Ok(Action::Proceed));
}

#[test]
fn preparing_the_directory_twice_is_reported_once() {
    let mut supervisor = development();
    assert!(supervisor.step(Event::Start).is_ok());
    assert!(supervisor.step(Event::EnvironmentPrepared).is_ok());
    assert_eq!(supervisor.step(Event::EnvironmentPrepared), Err(Event::EnvironmentPrepared));
    assert_eq!(
        supervisor.step(Event::Failed(Failure::DirectoryPrepFailure)),
        Err(Event::Failed(Failure::DirectoryPrepFailure))
    );
    assert_eq!(supervisor.phase(), Phase::Resolving);
}

#[test]
fn production_does_not_wait_for_the_environment() {
    let mut supervisor = production();
    assert!(supervisor.step(Event::Start).is_ok());
    assert_eq!(supervisor.step(Event::EnvironmentPrepared), Err(Event::EnvironmentPrepared));
    assert_eq!(
        supervisor.step(Event::Failed(Failure::DirectoryPrepFailure)),
        Err(Event::Failed(Failure::DirectoryPrepFailure))
    );
}

#[test]
fn development_does_not_locate_before_the_environment_is_settled() {
    let mut supervisor = development();
    assert!(supervisor.step(Event::Start).is_ok());
    assert_eq!(supervisor.step(Event::Located), Err(Event::Located));
    assert_eq!(
        supervisor.step(Event::Failed(Failure::ExecutableNotFound)),
        Err(Event::Failed(Failure::ExecutableNotFound))
    );
    assert_eq!(supervisor.phase(), Phase::Resolving);
}

#[test]
fn resolution_failure_is_out_of_order_in_development() {
    let mut supervisor = development();
    assert!(supervisor.step(Event::Start).is_ok());
    assert!(supervisor.step(Event::EnvironmentPrepared).is_ok());
    assert_eq!(
        supervisor.step(Event::Failed(Failure::ResolutionFailure)),
        Err(Event::Failed(Failure::ResolutionFailure))
    );
    assert_eq!(supervisor.phase(), Phase::Resolving);
    assert!(!supervisor.awaits(Failure::ResolutionFailure));
    assert!(supervisor.awaits(Failure::ExecutableNotFound));
}

#[test]
fn the_supervisor_awaits_the_failure_of_the_pending_action_only() {
    let mut supervisor = development();
    let all = [
        Failure::ResolutionFailure,
        Failure::ExecutableNotFound,
        Failure::SpawnFailed,
        Failure::DirectoryPrepFailure,
    ];
    assert!(all.iter().all(|failure| !supervisor.awaits(*failure)));
    assert!(supervisor.step(Event::Start).is_ok());
    assert!(supervisor.awaits(Failure::DirectoryPrepFailure));
    assert!(!supervisor.awaits(Failure::ExecutableNotFound));
    assert!(!supervisor.awaits(Failure::SpawnFailed));
    let supervisor = launching(production());
    assert!(supervisor.awaits(Failure::SpawnFailed));
    assert!(!supervisor.awaits(Failure::ExecutableNotFound));
    assert!(!supervisor.awaits(Failure::ResolutionFailure));
    assert!(!supervisor.awaits(Failure::DirectoryPrepFailure));
}

#[test]
fn events_before_start_are_out_of_order() {
    let mut supervisor = development();
    assert_eq!(supervisor.step(Event::EnvironmentPrepared), Err(Event::EnvironmentPrepared));
    assert_eq!(supervisor.step(Event::Located), Err(Event::Located));
    assert_eq!(supervisor.step(Event::Spawned(5)), Err(Event::Spawned(5)));
    assert_eq!(
        supervisor.step(Event::Failed(Failure::SpawnFailed)),
        Err(Event::Failed(Failure::SpawnFailed))
    );
    assert_eq!(supervisor.step(Event::Teardown), Ok(Action::Nothing));
    assert_eq!(supervisor.phase(), Phase::Uninitialized);
}

#[test]
fn startup_begins_once() {
    let mut supervisor = production();
    assert!(supervisor.step(Event::Start).is_ok());
    assert_eq!(supervisor.step(Event::Start), Err(Event::Start));
    let mut supervisor = launching(production());
    assert_eq!(supervisor.step(Event::Start), Err(Event::Start));
    assert_eq!(supervisor.step(Event::Located), Err(Event::Located));
    assert_eq!(supervisor.phase(), Phase::Launching);
}

#[test]
fn nothing_follows_an_aborted_startup() {
    let mut supervisor = launching(development());
    assert!(supervisor.step(Event::Failed(Failure::SpawnFailed)).is_ok());
    assert_eq!(supervisor.step(Event::Start), Err(Event::Start));
    assert_eq!(supervisor.step(Event::Located), Err(Event::Located));
    assert_eq!(supervisor.step(Event::Spawned(2)), Err(Event::Spawned(2)));
    assert_eq!(
        supervisor.step(Event::Failed(Failure::SpawnFailed)),
        Err(Event::Failed(Failure::SpawnFailed))
    );
    assert_eq!(supervisor.step(Event::Teardown), Ok(Action::Nothing));
    assert_eq!(supervisor.phase(), Phase::Aborted);
    assert_eq!(supervisor.failure(), Some(Failure::SpawnFailed));
}

#[test]
fn the_mode_and_host_never_change() {
    let mut supervisor: Supervisor<u32> =
        Supervisor::new(LaunchMode::Development, HostFamily::Windows);
    let events = [
        Event::Start,
        Event::Failed(Failure::DirectoryPrepFailure),
        Event::Located,
        Event::Spawned(1),
        Event::Spawned(2),
        Event::Teardown,
        Event::Teardown,
    ];
    for event in events {
        let _ = supervisor.step(event);
        assert_eq!(supervisor.mode(), LaunchMode::Development);
        assert_eq!(supervisor.host(), HostFamily::Windows);
    }
    assert_eq!(supervisor.phase(), Phase::Terminated);
}
