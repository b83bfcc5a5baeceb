//! The verification aggregator: the external parser reads and parses the
//! whole file set itself and reports at most one aggregated error; this
//! module turns that outcome into the command's result.

use vstd::prelude::*;

verus! {

/// Turns the outcome of the external parser's multi-path entry point into
/// the verify command's result: success stays success and is silent; an
/// aggregated error report is propagated verbatim as the failure text.
pub fn verify_report(parse_error: Option<String>) -> (r: Result<(), String>)
    ensures
        r is Ok <==> parse_error is None,
        (match r {
            Err(report) => report == parse_error.unwrap(),
            Ok(()) => true,
        }),
{
    match parse_error {
        None => Ok(()),
        Some(report) => Err(report),
    }
}

} // verus!
