//! Routes of the uptime monitor's API that answer without the database.

use vstd::prelude::*;

verus! {

/// The body of a pause or resume request.
pub struct PausePayload {
    pub paused: bool,
}

/// The answer of the health route.
pub fn health_check() -> (s: String)
    ensures
        s@ == "Status: OK"@,
{
    String::from_str("Status: OK")
}

} // verus!
