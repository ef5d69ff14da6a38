use sidecar_supervisor::failure::{disposition, Disposition, Failure};
use sidecar_supervisor::mode::LaunchMode;

#[test]
fn a_missing_program_is_fatal_in_development() {
    assert_eq!(
        disposition(LaunchMode::Development, Failure::ExecutableNotFound),
        Some(Disposition::Fatal)
    );
}

#[test]
fn a_missing_program_is_recovered_in_production() {
    assert_eq!(
        disposition(LaunchMode::Production, Failure::ExecutableNotFound),
        Some(Disposition::Recovered)
    );
}

#[test]
fn a_failed_spawn_is_fatal_in_both_modes() {
    assert_eq!(disposition(LaunchMode::Development, Failure::SpawnFailed), Some(Disposition::Fatal));
    assert_eq!(disposition(LaunchMode::Production, Failure::SpawnFailed), Some(Disposition::Fatal));
}

#[test]
fn a_failed_resolution_is_recovered_in_production() {
    assert_eq!(
        disposition(LaunchMode::Production, Failure::ResolutionFailure),
        Some(Disposition::Recovered)
    );
}

#[test]
fn resolution_cannot_fail_in_development() {
    assert_eq!(disposition(LaunchMode::Development, Failure::ResolutionFailure), None);
}

#[test]
fn a_failed_directory_is_discarded_in_development() {
    assert_eq!(
        disposition(LaunchMode::Development, Failure::DirectoryPrepFailure),
        Some(Disposition::Discarded)
    );
}

#[test]
fn production_prepares_no_directory() {
    assert_eq!(disposition(LaunchMode::Production, Failure::DirectoryPrepFailure), None);
}

#[test]
fn each_failure_has_its_own_message() {
    assert_eq!(Failure::ExecutableNotFound.message(), "python not found");
    assert_eq!(Failure::SpawnFailed.message(), "failed to spawn flask sidecar");
    assert_eq!(Failure::ResolutionFailure.message(), "bundled sidecar not resolved");
    assert_eq!(
        Failure::DirectoryPrepFailure.message(),
        "application data directory not created"
    );
}
