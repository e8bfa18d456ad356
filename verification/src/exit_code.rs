//! Exit codes for the program.

use vstd::prelude::*;

use crate::err::PrintError;

verus! {

/// An I/O error occurred while printing the message to the standard output.
pub const OPERATION_ERROR: i32 = -1;

/// No errors occurred while printing to the standard output.
pub const OKAY: i32 = 0;

/// One or more invalid arguments were supplied to the program.
pub const INVALID_ARGUMENTS_ERROR: i32 = 1;

/// The exit code the program reports for the outcome of a print:
/// [`OKAY`] on success, [`OPERATION_ERROR`] on any I/O failure.
pub fn exit_code_for(outcome: &Result<(), PrintError>) -> (code: i32)
    ensures
        outcome is Ok ==> code == OKAY,
        outcome is Err ==> code == OPERATION_ERROR,
{
    match outcome {
        Ok(_) => OKAY,
        Err(_) => OPERATION_ERROR,
    }
}

} // verus!
