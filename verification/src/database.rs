//! The database that tables are created in.

use crate::dialect::Dialect;
use crate::driver::Driver;
use crate::safe::Safe;
use vstd::prelude::*;

verus! {

/// A database, reached through one shared driver.
#[verifier::reject_recursive_types(T)]
pub struct Database<T: Driver> {
    driver: Safe<T>,
}

impl<T: Driver> Database<T> {
    /// The handle through which the database is reached.
    pub closed spec fn handle(&self) -> Safe<T> {
        self.driver
    }

    /// The database behind `driver`, which is wrapped here for sharing and
    /// takes its statements in `dialect`.
    pub fn new(driver: T, dialect: Dialect) -> (database: Database<T>)
        ensures
            database.handle().dialect_view() == dialect@,
    {
        Database { driver: Safe::new(driver, dialect) }
    }

    /// The database behind a driver that is shared already.
    pub fn with_driver(driver: Safe<T>) -> (database: Database<T>)
        ensures
            database.handle() == driver,
    {
        Database { driver }
    }
}

/// Another handle to the driver of `database`.
pub fn driver<T: Driver>(database: &Database<T>) -> (handle: Safe<T>)
    ensures
        handle == database.handle(),
{
    database.driver.clone()
}

} // verus!
