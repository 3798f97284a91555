//! What an invocation hands back across the foreign boundary: a decision,
//! or a tagged error code in place of an abort.
use vstd::prelude::*;
use crate::error::{error_code, MyError, FETCH_FAILED_CODE, NOT_ACTIVE_CODE};

verus! {

/// Why an invocation did not decide.
#[derive(Debug, Clone, Copy, PartialEq, Eq, Structural)]
pub enum Failure {
    /// The library's own logic failed.
    Lib(MyError),
    /// The capability's fetch failed.
    FetchFailed,
    /// The instance was not active, or too busy to take the call.
    NotActive,
}

/// The result of an invocation, as it crosses the boundary.
#[derive(Debug, Clone, Copy, PartialEq, Eq, Structural)]
pub struct Outcome {
    /// Set exactly when `run` holds a decision.
    pub ok: bool,
    /// The decision; false whenever `ok` is not set.
    pub run: bool,
    /// Zero on success, else the failure's code.
    pub error: u32,
}

/// The code of a failure.
pub open spec fn failure_code(f: Failure) -> u32 {
    match f {
        Failure::Lib(e) => error_code(e),
        Failure::FetchFailed => FETCH_FAILED_CODE,
        Failure::NotActive => NOT_ACTIVE_CODE,
    }
}

/// The outcome that stands for `r`.
pub open spec fn outcome_spec(r: Result<bool, Failure>) -> Outcome {
    match r {
        Ok(run) => Outcome { ok: true, run, error: 0 },
        Err(f) => Outcome { ok: false, run: false, error: failure_code(f) },
    }
}

/// The outcome for a decision or a failure. A failure never reads as "run".
pub fn outcome(r: Result<bool, Failure>) -> (o: Outcome)
    ensures
        o == outcome_spec(r),
        o.ok == (r is Ok),
        o.ok <==> o.error == 0,
        !o.ok ==> !o.run,
{
    match r {
        Ok(run) => Outcome { ok: true, run, error: 0 },
        Err(f) => {
            let error = match f {
                Failure::Lib(e) => e.code(),
                Failure::FetchFailed => FETCH_FAILED_CODE,
                Failure::NotActive => NOT_ACTIVE_CODE,
            };
            Outcome { ok: false, run: false, error }
        },
    }
}

/// Distinct failures cross the boundary under distinct codes, and none
/// under the code of success.
pub proof fn lemma_failure_codes_distinct(f: Failure, g: Failure)
    ensures
        failure_code(f) != 0,
        failure_code(f) == failure_code(g) ==> f == g,
{
}

} // verus!
