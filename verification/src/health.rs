use vstd::prelude::*;

verus! {

/// Payload of the liveness probe.
#[derive(Clone, Debug)]
pub struct PingResponse {
    pub status: String,
}

/// The liveness answer. It takes nothing from anywhere, so it is the same
/// whatever the state of the system: `status` is always `"ok"`.
pub fn ping_response() -> (r: PingResponse)
    ensures
        r.status@ == "ok"@,
{
    PingResponse { status: "ok".to_owned() }
}

} // verus!
