//! The one error type that callers of the layer handle.

use crate::driver::DriverError;
use crate::operation::CompileError;
use vstd::prelude::*;
use vstd::std_specs::convert::FromSpecImpl;

verus! {

/// Why a schema action failed: its description was invalid, or the
/// backend refused or failed it.
#[derive(Clone, Copy, Debug, PartialEq, Eq, Structural)]
pub enum Error {
    /// The operation did not compile; nothing was executed.
    Compile(CompileError),
    /// The backend reported a failure, passed on unchanged.
    Driver(DriverError),
}

impl From<CompileError> for Error {
    fn from(error: CompileError) -> (wrapped: Error) {
        Error::Compile(error)
    }
}

impl FromSpecImpl<CompileError> for Error {
    open spec fn obeys_from_spec() -> bool {
        true
    }

    open spec fn from_spec(error: CompileError) -> Error {
        Error::Compile(error)
    }
}

impl From<DriverError> for Error {
    fn from(error: DriverError) -> (wrapped: Error) {
        Error::Driver(error)
    }
}

impl FromSpecImpl<DriverError> for Error {
    open spec fn obeys_from_spec() -> bool {
        true
    }

    open spec fn from_spec(error: DriverError) -> Error {
        Error::Driver(error)
    }
}

} // verus!
