//! Reading the integer that the foreign intersection routine returns.

use libc::c_int;
use vstd::prelude::*;

verus! {

/// Return code of the foreign routine for two shapes that overlap.
pub const INTERSECTING: c_int = 1;

/// Return code of the foreign routine for two shapes that are apart.
pub const SEPARATE: c_int = 0;

/// Why a query produced no answer.
#[derive(Clone, Copy, Debug, PartialEq, Eq, Structural)]
pub enum QueryError {
    /// The foreign routine returned something other than its two documented
    /// codes; the offending value is kept.
    ContractViolation(c_int),
    /// The foreign call path was left abnormally, or the query was given up
    /// before the foreign routine was entered.
    Aborted,
}

/// The answer that a return code stands for.
pub open spec fn decoded(code: c_int) -> Result<bool, QueryError> {
    if code == INTERSECTING {
        Ok(true)
    } else if code == SEPARATE {
        Ok(false)
    } else {
        Err(QueryError::ContractViolation(code))
    }
}

/// Reads the foreign routine's return code: 1 means the shapes intersect, 0
/// that they do not, and any other value is reported as a contract violation
/// instead of being taken for "no intersection".
pub fn decode_result(code: c_int) -> (answer: Result<bool, QueryError>)
    ensures
        answer == decoded(code),
        answer is Ok <==> code == INTERSECTING || code == SEPARATE,
{
    if code == INTERSECTING {
        Ok(true)
    } else if code == SEPARATE {
        Ok(false)
    } else {
        Err(QueryError::ContractViolation(code))
    }
}

} // verus!
