//! The ways in which bringing up the sidecar can fail, and what each of them
//! means for the application's startup.

use vstd::prelude::*;
use crate::mode::LaunchMode;

verus! {

/// What went wrong while the sidecar was brought up.
#[derive(Clone, Copy, Debug, PartialEq, Eq, Structural)]
pub enum Failure {
    /// No descriptor could be resolved to a bundled executable.
    ResolutionFailure,
    /// The descriptor names a program that is not present on this host.
    ExecutableNotFound,
    /// The program is present, but the process could not be created.
    SpawnFailed,
    /// The application data directory could not be created.
    DirectoryPrepFailure,
}

/// What the supervisor does about a failure.
#[derive(Clone, Copy, Debug, PartialEq, Eq, Structural)]
pub enum Disposition {
    /// Startup is aborted: the application must not go on.
    Fatal,
    /// Startup goes on without a sidecar.
    Recovered,
    /// The failure is passed over and startup goes on as if it had not
    /// happened.
    Discarded,
}

impl Failure {
    /// Whether the failure can come up in the given mode at all. A
    /// development build knows its descriptor statically, so resolution
    /// cannot fail there; a production build prepares no directory.
    pub open spec fn arises_in(self, mode: LaunchMode) -> bool {
        match self {
            Failure::ResolutionFailure => mode == LaunchMode::Production,
            Failure::DirectoryPrepFailure => mode == LaunchMode::Development,
            Failure::ExecutableNotFound | Failure::SpawnFailed => true,
        }
    }

    /// Whether the failure ends startup in the given mode. A process that
    /// cannot be created is a broken installation in either mode. A missing
    /// program is one only where the backend is expected to be at hand.
    pub open spec fn is_fatal_in(self, mode: LaunchMode) -> bool {
        self == Failure::SpawnFailed || (self == Failure::ExecutableNotFound && mode
            == LaunchMode::Development)
    }

    /// Whether startup goes on without a sidecar after the failure. Only a
    /// production build may ship without one.
    pub open spec fn is_recovered_in(self, mode: LaunchMode) -> bool {
        mode == LaunchMode::Production && (self == Failure::ResolutionFailure || self
            == Failure::ExecutableNotFound)
    }

    /// Whether the failure is passed over in the given mode.
    pub open spec fn is_discarded_in(self, mode: LaunchMode) -> bool {
        self == Failure::DirectoryPrepFailure && mode == LaunchMode::Development
    }

    /// A short text for the person in front of the application.
    pub open spec fn message_text(self) -> Seq<char> {
        match self {
            Failure::ResolutionFailure => "bundled sidecar not resolved"@,
            Failure::ExecutableNotFound => "python not found"@,
            Failure::SpawnFailed => "failed to spawn flask sidecar"@,
            Failure::DirectoryPrepFailure => "application data directory not created"@,
        }
    }

    /// A short text for the person in front of the application.
    pub fn message(self) -> (text: &'static str)
        ensures
            text@ == self.message_text(),
    {
        match self {
            Failure::ResolutionFailure => "bundled sidecar not resolved",
            Failure::ExecutableNotFound => "python not found",
            Failure::SpawnFailed => "failed to spawn flask sidecar",
            Failure::DirectoryPrepFailure => "application data directory not created",
        }
    }
}

/// The supervisor's policy: what is done about a failure in a mode, where
/// the failure can come up in that mode.
pub open spec fn policy(mode: LaunchMode, failure: Failure) -> Option<Disposition> {
    if failure.is_fatal_in(mode) {
        Some(Disposition::Fatal)
    } else if failure.is_recovered_in(mode) {
        Some(Disposition::Recovered)
    } else if failure.is_discarded_in(mode) {
        Some(Disposition::Discarded)
    } else {
        None
    }
}

/// Decides what is done about a failure in a mode. The answer is `None`
/// exactly where the failure cannot come up in that mode.
pub fn disposition(mode: LaunchMode, failure: Failure) -> (decision: Option<Disposition>)
    ensures
        decision == policy(mode, failure),
        decision.is_some() <==> failure.arises_in(mode),
{
    match failure {
        Failure::SpawnFailed => Some(Disposition::Fatal),
        Failure::ExecutableNotFound => match mode {
            LaunchMode::Development => Some(Disposition::Fatal),
            LaunchMode::Production => Some(Disposition::Recovered),
        },
        Failure::ResolutionFailure => match mode {
            LaunchMode::Development => None,
            LaunchMode::Production => Some(Disposition::Recovered),
        },
        Failure::DirectoryPrepFailure => match mode {
            LaunchMode::Development => Some(Disposition::Discarded),
            LaunchMode::Production => None,
        },
    }
}

/// The policy gives every failure exactly one disposition in each mode in
/// which the failure can come up, and none in a mode in which it cannot.
pub proof fn law_policy_is_decided(mode: LaunchMode, failure: Failure)
    ensures
        policy(mode, failure).is_some() <==> failure.arises_in(mode),
        policy(mode, failure) == Some(Disposition::Fatal) <==> failure.is_fatal_in(mode),
        policy(mode, failure) == Some(Disposition::Recovered) <==> failure.is_recovered_in(mode),
        policy(mode, failure) == Some(Disposition::Discarded) <==> failure.is_discarded_in(mode),
        !(failure.is_fatal_in(mode) && failure.is_recovered_in(mode)),
        !(failure.is_fatal_in(mode) && failure.is_discarded_in(mode)),
        !(failure.is_recovered_in(mode) && failure.is_discarded_in(mode)),
{
}

} // verus!
