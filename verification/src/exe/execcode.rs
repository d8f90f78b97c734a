//! The exit codes of the command line programs.
use crate::exe::error::Error;
use vstd::prelude::*;

verus! {

/// Every datetime was converted.
pub const EXIT_CODE_OK: i32 = 0;

/// The program could not start its work.
pub const EXIT_CODE_NG: i32 = 1;

/// Some of the datetimes were not converted.
pub const EXIT_CODE_SOME_DT_NOT_CONVERTED: i32 = 2;

/// The outcome of a run in which `someone_is_err` says whether any datetime
/// was not converted.
pub fn conversion_result(someone_is_err: bool) -> (r: Result<(), Error>)
    ensures
        r is Err <==> someone_is_err,
{
    if someone_is_err {
        Err(Error::FailedSomeConvertionError())
    } else {
        Ok(())
    }
}

/// The exit code for the outcome of a run.
pub fn execcode(result: &Result<(), Error>) -> (code: i32)
    ensures
        code == if result is Ok {
            EXIT_CODE_OK
        } else {
            EXIT_CODE_SOME_DT_NOT_CONVERTED
        },
{
    match result {
        Ok(()) => EXIT_CODE_OK,
        Err(Error::FailedSomeConvertionError()) => EXIT_CODE_SOME_DT_NOT_CONVERTED,
    }
}

} // verus!
