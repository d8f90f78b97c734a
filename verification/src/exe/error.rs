//! How a run of a command line program can fail as a whole.
use vstd::prelude::*;

verus! {

/// The failure of a run.
#[derive(Debug, PartialEq, Eq, Structural)]
pub enum Error {
    /// Some of the datetimes were not converted.
    FailedSomeConvertionError(),
}

impl Error {
    /// The message shown to a user.
    pub fn message(&self) -> (text: &'static str)
        ensures
            text@ == "Failed convertion of some datetimes."@,
    {
        "Failed convertion of some datetimes."
    }
}

} // verus!
