//! Supervision of a single auxiliary backend process, the sidecar, on behalf
//! of a desktop application.
//!
//! The library holds the decisions: which program stands for the sidecar in
//! which launch mode, which failures end the application's startup and which
//! are passed over, and who owns the handle of the running process. It does
//! no I/O of its own. The host application performs each action that the
//! supervisor asks for and reports back what happened:
//!
//! 1. The host makes a [`supervisor::Supervisor`] for its launch mode and
//!    host family and hands it [`protocol::Event::Start`].
//! 2. Each [`supervisor::Supervisor::step`] answers with a
//!    [`protocol::Action`]. The host performs it and hands the outcome to
//!    the next step, until the action is to proceed or to abort.
//! 3. When the application's state is torn down, the host hands over
//!    [`protocol::Event::Teardown`] and terminates the process whose handle
//!    comes back.
//!
//! The module [`laws`] states what holds of every such exchange.

pub mod descriptor;
pub mod failure;
pub mod laws;
pub mod mode;
pub mod protocol;
pub mod rpc;
pub mod supervisor;
