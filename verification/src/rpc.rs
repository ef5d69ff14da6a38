//! The commands that the application's frontend can call.

use vstd::prelude::*;

verus! {

/// Answers the frontend's liveness check. The answer says nothing about
/// the sidecar: it only shows that calls reach the application.
pub fn ping() -> (reply: String)
    ensures
        reply@ == "pong"@,
{
    "pong".to_owned()
}

} // verus!
