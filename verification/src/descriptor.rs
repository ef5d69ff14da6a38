//! What to run as the sidecar: the program and the arguments it is given.

use vstd::prelude::*;
use crate::mode::{HostFamily, LaunchMode};

verus! {

/// The interpreter's name on a Windows host.
pub const INTERPRETER_WINDOWS: &'static str = "python";

/// The interpreter's name on every other host.
pub const INTERPRETER_OTHER: &'static str = "python3";

/// The backend's entry script, relative to the working directory.
pub const BACKEND_SCRIPT: &'static str = "pyserver/app.py";

/// The logical name under which the packaged backend is bundled.
pub const BUNDLED_SIDECAR: &'static str = "flask_sidecar";

/// The two ways a sidecar is started.
#[derive(Clone, Copy, Debug, PartialEq, Eq, Structural)]
pub enum DescriptorKind {
    /// A system interpreter that is handed the backend's entry script.
    Interpreter,
    /// An executable bundled with the application, found by its logical name.
    Bundled,
}

/// A descriptor as a mathematical value.
pub struct DescriptorView {
    pub kind: DescriptorKind,
    pub program: Seq<char>,
    pub args: Seq<Seq<char>>,
}

impl DescriptorView {
    /// Whether the descriptor is the one that some launch mode and host
    /// family determine.
    pub open spec fn is_resolved(self) -> bool {
        exists|mode: LaunchMode, host: HostFamily| self == #[trigger] resolved(mode, host)
    }
}

/// The launch specification of the sidecar. It is made by
/// [`resolve_descriptor`] and never changes afterwards.
#[derive(Debug, PartialEq, Eq)]
pub struct SidecarDescriptor {
    kind: DescriptorKind,
    program: String,
    args: Vec<String>,
}

/// The interpreter's name on a host of the given family.
pub open spec fn interpreter_name(host: HostFamily) -> Seq<char> {
    match host {
        HostFamily::Windows => INTERPRETER_WINDOWS@,
        HostFamily::Other => INTERPRETER_OTHER@,
    }
}

/// The descriptor that a launch mode and a host family determine.
pub open spec fn resolved(mode: LaunchMode, host: HostFamily) -> DescriptorView {
    match mode {
        LaunchMode::Development => DescriptorView {
            kind: DescriptorKind::Interpreter,
            program: interpreter_name(host),
            args: seq![BACKEND_SCRIPT@],
        },
        LaunchMode::Production => DescriptorView {
            kind: DescriptorKind::Bundled,
            program: BUNDLED_SIDECAR@,
            args: Seq::empty(),
        },
    }
}

impl View for SidecarDescriptor {
    type V = DescriptorView;

    closed spec fn view(&self) -> DescriptorView {
        DescriptorView {
            kind: self.kind,
            program: self.program@,
            args: self.args@.map_values(|s: String| s@),
        }
    }
}

impl SidecarDescriptor {
    /// Every descriptor is the outcome of a resolution.
    #[verifier::type_invariant]
    closed spec fn comes_from_resolution(self) -> bool {
        self@.is_resolved()
    }

    /// How the sidecar is started. Whatever the kind, the descriptor is one
    /// that some launch mode and host family determine.
    pub fn kind(&self) -> (kind: DescriptorKind)
        ensures
            kind == self@.kind,
            self@.is_resolved(),
    {
        proof {
            use_type_invariant(self);
        }
        self.kind
    }

    /// The interpreter's name, or the logical name of the bundled executable.
    pub fn program(&self) -> (program: &str)
        ensures
            program@ == self@.program,
    {
        self.program.as_str()
    }

    /// The arguments handed to the program, in order.
    pub fn args(&self) -> (args: &Vec<String>)
        ensures
            args@.map_values(|s: String| s@) == self@.args,
    {
        &self.args
    }
}

/// Determines the sidecar's descriptor from the launch mode and the host
/// family. Nothing is looked up: the result depends on the two arguments
/// alone.
pub fn resolve_descriptor(mode: LaunchMode, host: HostFamily) -> (descriptor: SidecarDescriptor)
    ensures
        descriptor@ == resolved(mode, host),
{
    match mode {
        LaunchMode::Development => {
            let program = match host {
                HostFamily::Windows => INTERPRETER_WINDOWS,
                HostFamily::Other => INTERPRETER_OTHER,
            };
            let program = program.to_owned();
            let mut args: Vec<String> = Vec::new();
            args.push(BACKEND_SCRIPT.to_owned());
            proof {
                let view = DescriptorView {
                    kind: DescriptorKind::Interpreter,
                    program: program@,
                    args: args@.map_values(|s: String| s@),
                };
                assert(view.args =~= seq![BACKEND_SCRIPT@]);
                assert(view == resolved(mode, host));
            }
            SidecarDescriptor { kind: DescriptorKind::Interpreter, program, args }
        },
        LaunchMode::Production => {
            let program = BUNDLED_SIDECAR.to_owned();
            let args: Vec<String> = Vec::new();
            proof {
                let view = DescriptorView {
                    kind: DescriptorKind::Bundled,
                    program: program@,
                    args: args@.map_values(|s: String| s@),
                };
                assert(view.args =~= Seq::<Seq<char>>::empty());
                assert(view == resolved(mode, host));
            }
            SidecarDescriptor { kind: DescriptorKind::Bundled, program, args }
        },
    }
}

/// In a development build the sidecar is a system interpreter that is
/// handed the backend's entry script. The interpreter is `python` on a
/// Windows host and `python3` on every other host, and these are two
/// different names.
pub proof fn law_interpreter_follows_host(host: HostFamily)
    ensures
        resolved(LaunchMode::Development, host).kind == DescriptorKind::Interpreter,
        resolved(LaunchMode::Development, host).program == (if host == HostFamily::Windows {
            "python"@
        } else {
            "python3"@
        }),
        resolved(LaunchMode::Development, host).args == seq!["pyserver/app.py"@],
        "python"@ != "python3"@,
{
    reveal_strlit("python");
    reveal_strlit("python3");
    assert("python"@.len() != "python3"@.len());
}

/// In a production build the sidecar is the bundled executable, under the
/// same logical name on every host and with no arguments.
pub proof fn law_bundle_ignores_host(host: HostFamily)
    ensures
        resolved(LaunchMode::Production, host).kind == DescriptorKind::Bundled,
        resolved(LaunchMode::Production, host).program == "flask_sidecar"@,
        resolved(LaunchMode::Production, host).args == Seq::<Seq<char>>::empty(),
{
}

} // verus!
