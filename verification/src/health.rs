//! The liveness probe: a constant reply, computed without any upstream
//! call.

use vstd::prelude::*;
use vstd::string::StringExecFns;

verus! {

/// The liveness probe's reply.
pub struct HealthInfo {
    pub status: String,
    pub service: String,
    pub version: String,
}

/// The liveness probe. It takes no input and touches nothing outside this
/// crate, so its reply is the same constant whether or not the upstream
/// service is reachable.
pub fn health_check() -> (r: HealthInfo)
    ensures
        r.status@ == "healthy"@,
        r.service@ == "deepl-proxy"@,
        r.version@ == "0.1.0"@,
{
    HealthInfo {
        status: String::from_str("healthy"),
        service: String::from_str("deepl-proxy"),
        version: String::from_str("0.1.0"),
    }
}

} // verus!
