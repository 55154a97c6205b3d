//! A backend-agnostic layer for describing schema operations and handing
//! their compiled statements to an interchangeable database driver.

pub mod column;
pub mod database;
pub mod dialect;
pub mod driver;
pub mod error;
pub mod operation;
pub mod safe;
pub mod syntax;
pub mod table;

pub use column::{Column, DataKind};
pub use database::Database;
pub use dialect::Dialect;
pub use driver::{Driver, DriverError, ExecutionOutcome};
pub use error::Error;
pub use operation::{CompileError, CompiledStatement, CreateTable, Field, Operation};
pub use safe::Safe;
pub use table::Table;
