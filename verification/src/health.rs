//! Liveness and readiness answers.

use vstd::prelude::*;

verus! {

broadcast use vstd::string::group_string_axioms;

#[derive(Debug)]
pub struct HealthResponse {
    pub status: &'static str,
}

#[derive(Debug)]
pub struct ReadyResponse {
    pub status: &'static str,
}

/// The liveness answer: status `ok`.
pub fn health() -> (r: HealthResponse)
    ensures
        r.status@ == "ok"@,
{
    HealthResponse { status: "ok" }
}

/// The readiness answer given whether the database answered a ping: status
/// `ready`, or the error message of a 503 answer.
pub fn readiness(database_reachable: bool) -> (r: Result<ReadyResponse, &'static str>)
    ensures
        database_reachable ==> (r matches Ok(s) && s.status@ == "ready"@),
        !database_reachable ==> (r matches Err(m) && m@ == "database unavailable"@),
{
    if database_reachable {
        Ok(ReadyResponse { status: "ready" })
    } else {
        Err("database unavailable")
    }
}

} // verus!
