//! The two inputs that decide how the sidecar is located: the launch mode of
//! the build and the family of the host operating system.

use vstd::prelude::*;

verus! {

/// How the application was built. Chosen once, when the process starts.
#[derive(Clone, Copy, Debug, PartialEq, Eq, Structural)]
pub enum LaunchMode {
    /// The backend runs from source under a system interpreter.
    Development,
    /// The backend is an executable bundled beside the application.
    Production,
}

/// The family of the host operating system, as far as it decides the
/// interpreter's name.
#[derive(Clone, Copy, Debug, PartialEq, Eq, Structural)]
pub enum HostFamily {
    /// Windows and the systems that name their programs as Windows does.
    Windows,
    /// Every other system.
    Other,
}

impl LaunchMode {
    /// The mode of a build, from whether it carries debug assertions.
    pub fn from_debug_build(debug: bool) -> (mode: LaunchMode)
        ensures
            mode == (if debug { LaunchMode::Development } else { LaunchMode::Production }),
    {
        if debug {
            LaunchMode::Development
        } else {
            LaunchMode::Production
        }
    }

    /// Whether the application data directory is prepared before launch.
    /// Only a development build stages files there.
    pub open spec fn prepares_environment(self) -> bool {
        self == LaunchMode::Development
    }

    /// Whether the application data directory is prepared before launch.
    pub fn needs_environment(self) -> (needed: bool)
        ensures
            needed == self.prepares_environment(),
    {
        match self {
            LaunchMode::Development => true,
            LaunchMode::Production => false,
        }
    }
}

impl HostFamily {
    /// The family of a host, from whether its operating system is Windows.
    pub fn from_windows(windows: bool) -> (host: HostFamily)
        ensures
            host == (if windows { HostFamily::Windows } else { HostFamily::Other }),
    {
        if windows {
            HostFamily::Windows
        } else {
            HostFamily::Other
        }
    }
}

} // verus!
