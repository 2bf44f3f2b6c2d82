//! The payload that resumes an interrupted event session.

use vstd::prelude::*;

verus! {

/// What a client sends to resume an event session.
#[derive(Debug, Default)]
pub struct GatewayResume {
    pub token: String,
    pub session_id: String,
    pub seq: String,
}

} // verus!
