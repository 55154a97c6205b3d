//! The capability a backend offers: executing compiled statements.

use crate::operation::CompiledStatement;
use vstd::prelude::*;

verus! {

/// What a backend reports after executing a statement.
#[derive(Clone, Copy, Debug, PartialEq, Eq, Structural)]
pub struct ExecutionOutcome {
    /// The number of rows the statement changed.
    pub rows_affected: u64,
}

/// A failure reported by a backend.
#[derive(Clone, Copy, Debug, PartialEq, Eq, Structural)]
pub enum DriverError {
    /// The connection to the backend was lost or could not be made.
    ConnectionLost,
    /// The statement creates something that already exists.
    AlreadyExists,
    /// The statement breaks a constraint that the backend enforces.
    ConstraintViolation,
    /// The backend does not accept the statement's syntax.
    SyntaxRejected,
    /// The backend did not answer in time.
    Timeout,
}

/// One live connection to a backend.
///
/// Nothing is promised of what an implementation answers: whoever calls
/// `execute` must be ready for every outcome.
pub trait Driver {
    /// Executes `statement` and reports what the backend answered. Every
    /// failure of the backend comes back as an error.
    fn execute(&mut self, statement: &CompiledStatement) -> Result<ExecutionOutcome, DriverError>;
}

/// Whether `outcome` is an answer that a driver of type `T` can give when
/// `statement` is handed to its `execute`. Of a driver whose `execute`
/// ensures nothing this says no more than that the answer is the driver's
/// own; of one that ensures something, that the answer meets it.
pub open spec fn answers<T: Driver>(
    statement: &CompiledStatement,
    outcome: Result<ExecutionOutcome, DriverError>,
) -> bool {
    exists|driver: &mut T| call_ensures(T::execute, (driver, statement), outcome)
}

} // verus!
