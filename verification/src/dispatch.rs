//! The command model and the dispatcher's exit policy.
//!
//! The argument layer (outside this crate) always produces one of the
//! three commands below; dispatch over them is exhaustive, with no silent
//! fall-through. The dispatcher prints each failure's diagnostic line and
//! exits non-zero when any file failed, zero otherwise.

use vstd::prelude::*;

verus! {

/// A user intent parsed from the process arguments.
pub enum Command {
    /// Reformat each named spec file in place, or print the formatted text
    /// to standard output when `to_stdout` is set.
    Format { paths: Vec<String>, to_stdout: bool },
    /// Parse every named spec file and report all failures as one
    /// aggregated report.
    Verify { paths: Vec<String> },
    /// Print the standard type catalogue.
    PrintStd,
}

/// The process exit status for a batch that produced the given diagnostic
/// lines: zero exactly when nothing failed, one otherwise.
pub fn exit_code(failures: &Vec<String>) -> (code: i32)
    ensures
        code == 0 <==> failures@.len() == 0,
        code == 0 || code == 1,
{
    if failures.len() == 0 {
        0
    } else {
        1
    }
}

} // verus!
