//! Tables: created through a database's driver, then held by name.

use crate::column::{column_views, copy_columns, Column, ColumnView};
use crate::database::Database;
use crate::dialect::DialectView;
use crate::driver::{Driver, DriverError, ExecutionOutcome};
use crate::error::Error;
use crate::operation::{CreateTable, CreateTableView, Operation};
use crate::safe::Safe;
use crate::syntax::occurs_at;
use vstd::prelude::*;

verus! {

/// The mathematical value of a [`Table`], its driver aside.
pub struct TableView {
    pub name: Seq<char>,
    pub columns: Seq<ColumnView>,
}

/// A table.
#[verifier::reject_recursive_types(T)]
pub struct Table<T: Driver> {
    name: String,
    columns: Vec<Column>,
    driver: Safe<T>,
}

impl<T: Driver> View for Table<T> {
    type V = TableView;

    closed spec fn view(&self) -> TableView {
        TableView { name: self.name@, columns: column_views(self.columns@) }
    }
}

/// The operation by which a table called `name` with `columns` is created:
/// only if absent, the columns in the order given.
pub open spec fn creation(name: Seq<char>, columns: Seq<ColumnView>) -> CreateTableView {
    CreateTableView { name: Some(name), if_not_exists: true, columns }
}

/// A table is always created on condition of its absence: wherever the
/// operation for it compiles, the dialect's create-if-absent clause stands
/// in the statement right behind the keyword, so that a backend which
/// honours the clause leaves a table that exists as it is.
pub proof fn lemma_creation_is_conditional(
    dialect: DialectView,
    name: Seq<char>,
    columns: Seq<ColumnView>,
)
    ensures
        creation(name, columns).compiled(dialect) matches Ok(text) ==> occurs_at(
            text,
            dialect.if_not_exists,
            "CREATE TABLE "@.len() as int,
        ),
{
    if let Ok(text) = creation(name, columns).compiled(dialect) {
        let at = "CREATE TABLE "@.len() as int;
        assert(text.subrange(at, at + dialect.if_not_exists.len()) =~= dialect.if_not_exists);
    }
}

/// The operation that [`Table::create`] compiles for a table called `name`
/// with `columns`.
pub fn operation_for(name: &str, columns: &[Column]) -> (operation: CreateTable)
    ensures
        operation@ == creation(name@, column_views(columns@)),
{
    let mut operation = CreateTable::new().if_not_exists().name(name);
    let mut index: usize = 0;
    while index < columns.len()
        invariant
            index <= columns.len(),
            operation@.name == Some(name@),
            operation@.if_not_exists,
            operation@.columns =~= column_views(columns@).take(index as int),
        decreases columns.len() - index,
    {
        operation = operation.column(columns[index].clone());
        index += 1;
    }
    assert(operation@.columns =~= column_views(columns@));
    operation
}

impl<T: Driver> Table<T> {
    /// The handle through which the table reaches its database.
    pub closed spec fn handle(&self) -> Safe<T> {
        self.driver
    }

    /// What [`Table::create`] returns once the driver has answered with
    /// `outcome`: the table, bound to `driver`, if the statement was
    /// executed, and else the driver's error unchanged.
    pub fn from_outcome(
        name: &str,
        columns: &[Column],
        driver: Safe<T>,
        outcome: Result<ExecutionOutcome, DriverError>,
    ) -> (result: Result<Table<T>, Error>)
        ensures
            match outcome {
                Ok(_) => result matches Ok(table) && table@ == (TableView {
                    name: name@,
                    columns: column_views(columns@),
                }) && table.handle() == driver,
                Err(error) => result matches Err(reported) && reported == Error::Driver(error),
            },
    {
        match outcome {
            Err(error) => Err(Error::Driver(error)),
            Ok(_) => Ok(Table { name: name.to_owned(), columns: copy_columns(columns), driver }),
        }
    }

    /// Create a table.
    ///
    /// The function has no effect on the database if the table already
    /// exists. Where the operation does not compile for the database's
    /// dialect, nothing is executed and the compile error is returned.
    /// Otherwise the driver decides: the table carries the name and the
    /// columns as declared here, or the driver's error is returned.
    pub fn create(database: &Database<T>, name: &str, columns: &[Column]) -> (result: Result<
        Table<T>,
        Error,
    >)
        ensures
            match creation(name@, column_views(columns@)).compiled(
                database.handle().dialect_view(),
            ) {
                Err(error) => result matches Err(reported) && reported == Error::Compile(error),
                Ok(_) => match result {
                    Ok(table) => table@ == (TableView {
                        name: name@,
                        columns: column_views(columns@),
                    }) && table.handle() == database.handle(),
                    Err(reported) => reported is Driver,
                },
            },
    {
        let driver = crate::database::driver(database);
        let operation = operation_for(name, columns);
        match operation.compile(driver.dialect()) {
            Err(error) => Err(Error::Compile(error)),
            Ok(statement) => {
                let outcome = driver.execute(&statement);
                Table::from_outcome(name, columns, driver, outcome)
            },
        }
    }

    /// Return the columns.
    #[inline]
    pub fn columns(&self) -> (columns: &[Column])
        ensures
            column_views(columns@) == self@.columns,
    {
        self.columns.as_slice()
    }

    /// Return the name.
    #[inline]
    pub fn name(&self) -> (name: &str)
        ensures
            name@ == self@.name,
    {
        self.name.as_str()
    }
}

/// Another handle to the driver of `table`.
#[inline]
pub fn driver<T: Driver>(table: &Table<T>) -> (handle: Safe<T>)
    ensures
        handle == table.handle(),
{
    table.driver.clone()
}

} // verus!
