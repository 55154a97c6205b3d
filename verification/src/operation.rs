//! Schema operations and their compilation into backend statements.

use crate::column::{column_views, Column, ColumnView, DataKind};
use crate::dialect::{Dialect, DialectView};
use crate::syntax::{
    column_list, column_offset, column_text, create_table_head, create_table_text,
    lemma_column_order, lemma_column_position, lemma_name_position, name_offset, occurs_at,
};
use vstd::prelude::*;

verus! {

/// A part of an operation that must be filled in before it compiles.
#[derive(Clone, Copy, Debug, PartialEq, Eq, Structural)]
pub enum Field {
    Name,
    Columns,
}

impl Field {
    /// The field's name as callers know it.
    pub fn label(self) -> (label: &'static str)
        ensures
            label@ == (match self {
                Field::Name => "name"@,
                Field::Columns => "columns"@,
            }),
    {
        match self {
            Field::Name => "name",
            Field::Columns => "columns",
        }
    }
}

/// Why an operation did not compile.
#[derive(Clone, Copy, Debug, PartialEq, Eq, Structural)]
pub enum CompileError {
    /// The named field is unset or empty.
    Incomplete(Field),
    /// The dialect has no native type for this data kind.
    UnsupportedType(DataKind),
}

/// A statement in one backend's syntax, ready to be executed.
#[derive(Debug)]
pub struct CompiledStatement {
    text: String,
}

impl View for CompiledStatement {
    type V = Seq<char>;

    closed spec fn view(&self) -> Seq<char> {
        self.text@
    }
}

impl CompiledStatement {
    /// The statement's text, for the driver that executes it.
    pub fn as_str(&self) -> (text: &str)
        ensures
            text@ == self@,
    {
        self.text.as_str()
    }
}

/// A compilation result with the statement replaced by its text.
pub open spec fn compiled_text(result: Result<CompiledStatement, CompileError>) -> Result<
    Seq<char>,
    CompileError,
> {
    match result {
        Ok(statement) => Ok(statement@),
        Err(error) => Err(error),
    }
}

/// A schema action that compiles into a statement for a given dialect.
pub trait Operation {
    /// What compiling the operation for `dialect` yields: the statement's
    /// text, or the reason there is none.
    spec fn compiled(&self, dialect: DialectView) -> Result<Seq<char>, CompileError>;

    /// Compiles the operation for `dialect`. Nothing is executed and the
    /// operation is left as it was.
    fn compile(&self, dialect: &Dialect) -> (result: Result<CompiledStatement, CompileError>)
        ensures
            compiled_text(result) == self.compiled(dialect@),
    ;
}

/// Whether `columns[index]` is a column for whose kind the dialect has no native type.
pub open spec fn unmapped_at(dialect: DialectView, columns: Seq<ColumnView>, index: int) -> bool {
    0 <= index < columns.len() && !dialect.maps(columns[index].kind)
}

/// Whether `columns[index]` is the first column for whose kind the dialect
/// has no native type.
pub open spec fn first_unmapped_at(dialect: DialectView, columns: Seq<ColumnView>, index: int) -> bool {
    unmapped_at(dialect, columns, index) && forall|earlier: int|
        0 <= earlier < index ==> !unmapped_at(dialect, columns, earlier)
}

/// The kind of the first column for whose kind the dialect has no native
/// type, if there is such a column.
pub open spec fn first_unmapped(dialect: DialectView, columns: Seq<ColumnView>) -> Option<DataKind> {
    if exists|index: int| unmapped_at(dialect, columns, index) {
        Some(columns[choose|index: int| first_unmapped_at(dialect, columns, index)].kind)
    } else {
        None
    }
}

/// The first column of an unmapped kind decides which kind is reported.
pub proof fn lemma_first_unmapped(dialect: DialectView, columns: Seq<ColumnView>, index: int)
    requires
        first_unmapped_at(dialect, columns, index),
    ensures
        first_unmapped(dialect, columns) == Some(columns[index].kind),
{
    let first = choose|at: int| first_unmapped_at(dialect, columns, at);
    assert(first == index);
}

/// Where some column is of an unmapped kind, one of them is the first, at
/// or before any other.
pub proof fn lemma_some_unmapped_is_first(
    dialect: DialectView,
    columns: Seq<ColumnView>,
    index: int,
) -> (first: int)
    requires
        unmapped_at(dialect, columns, index),
    ensures
        first <= index,
        first_unmapped_at(dialect, columns, first),
    decreases index,
{
    if exists|earlier: int| 0 <= earlier < index && unmapped_at(dialect, columns, earlier) {
        let earlier = choose|earlier: int|
            0 <= earlier < index && unmapped_at(dialect, columns, earlier);
        lemma_some_unmapped_is_first(dialect, columns, earlier)
    } else {
        index
    }
}

/// The mathematical value of a [`CreateTable`].
pub struct CreateTableView {
    pub name: Option<Seq<char>>,
    pub if_not_exists: bool,
    pub columns: Seq<ColumnView>,
}

impl CreateTableView {
    /// Whether the operation has a name, and not the empty one.
    pub open spec fn named(self) -> bool {
        self.name matches Some(name) && name.len() > 0
    }

    /// Whether the dialect has a native type for the kind of every column.
    pub open spec fn mapped_by(self, dialect: DialectView) -> bool {
        forall|index: int| 0 <= index < self.columns.len() ==> !unmapped_at(dialect, self.columns, index)
    }

    /// Where the table name stands in the operation's statement.
    pub open spec fn name_offset(self, dialect: DialectView) -> int {
        name_offset(dialect, self.if_not_exists)
    }

    /// Where the declaration of `columns[index]` stands in the operation's
    /// statement.
    pub open spec fn column_offset(self, dialect: DialectView, index: int) -> int {
        column_offset(dialect, self.name.unwrap(), self.if_not_exists, self.columns, index)
    }

    /// What compiling the operation for `dialect` yields. The name is
    /// looked at first, then the presence of columns, then each column's
    /// kind in order.
    pub open spec fn compiled(self, dialect: DialectView) -> Result<Seq<char>, CompileError> {
        if !self.named() {
            Err(CompileError::Incomplete(Field::Name))
        } else if self.columns.len() == 0 {
            Err(CompileError::Incomplete(Field::Columns))
        } else if let Some(kind) = first_unmapped(dialect, self.columns) {
            Err(CompileError::UnsupportedType(kind))
        } else {
            Ok(create_table_text(dialect, self.name.unwrap(), self.if_not_exists, self.columns))
        }
    }
}

/// An operation that has a name and at least one column, each of a kind
/// that the dialect maps, compiles. Its statement holds the table name and
/// then the declaration of each column, which begins with the column's
/// name, in the order in which the columns were added.
pub proof fn lemma_complete_operation_compiles(operation: CreateTableView, dialect: DialectView)
    requires
        operation.named(),
        operation.columns.len() > 0,
        operation.mapped_by(dialect),
    ensures
        operation.compiled(dialect) matches Ok(text) && {
            &&& occurs_at(text, operation.name.unwrap(), operation.name_offset(dialect))
            &&& operation.name_offset(dialect) + operation.name.unwrap().len()
                <= operation.column_offset(dialect, 0)
            &&& forall|index: int|
                0 <= index < operation.columns.len() ==> {
                    &&& occurs_at(
                        text,
                        #[trigger] operation.columns[index].name,
                        operation.column_offset(dialect, index),
                    )
                    &&& occurs_at(
                        text,
                        column_text(dialect, operation.columns[index]),
                        operation.column_offset(dialect, index),
                    )
                }
            &&& forall|earlier: int, later: int|
                0 <= earlier < later < operation.columns.len() ==> #[trigger] operation.column_offset(
                    dialect,
                    earlier,
                ) + column_text(dialect, operation.columns[earlier]).len()
                    <= #[trigger] operation.column_offset(dialect, later)
        },
{
    let name = operation.name.unwrap();
    let columns = operation.columns;
    lemma_name_position(dialect, name, operation.if_not_exists, columns);
    assert forall|index: int| 0 <= index < columns.len() implies {
        &&& occurs_at(
            create_table_text(dialect, name, operation.if_not_exists, columns),
            #[trigger] columns[index].name,
            operation.column_offset(dialect, index),
        )
        &&& occurs_at(
            create_table_text(dialect, name, operation.if_not_exists, columns),
            column_text(dialect, columns[index]),
            operation.column_offset(dialect, index),
        )
    } by {
        lemma_column_position(dialect, name, operation.if_not_exists, columns, index);
    }
    assert forall|earlier: int, later: int| 0 <= earlier < later < columns.len() implies
        #[trigger] operation.column_offset(dialect, earlier) + column_text(
        dialect,
        columns[earlier],
    ).len() <= #[trigger] operation.column_offset(dialect, later) by {
        lemma_column_order(dialect, name, operation.if_not_exists, columns, earlier, later);
    }
}

/// An operation without a name is refused for want of the name, whatever
/// its columns and the dialect. Once it is given a name, it compiles if it
/// has at least one column and the dialect maps the kind of each.
pub proof fn lemma_name_is_required(
    operation: CreateTableView,
    dialect: DialectView,
    name: Seq<char>,
)
    requires
        !operation.named(),
    ensures
        operation.compiled(dialect) == Err::<Seq<char>, CompileError>(
            CompileError::Incomplete(Field::Name),
        ),
        name.len() > 0 && operation.columns.len() > 0 && operation.mapped_by(dialect) ==> (
        CreateTableView { name: Some(name), ..operation }).compiled(dialect) is Ok,
{
    let renamed = CreateTableView { name: Some(name), ..operation };
    if name.len() > 0 && operation.columns.len() > 0 && operation.mapped_by(dialect) {
        assert(renamed.mapped_by(dialect));
        lemma_complete_operation_compiles(renamed, dialect);
    }
}

/// A named operation with a column of a kind that a dialect does not map
/// is refused by that dialect, which reports the kind of the first such
/// column. A dialect that maps the kind of every column compiles the same
/// operation.
pub proof fn lemma_unmapped_kind_is_refused(
    operation: CreateTableView,
    lacking: DialectView,
    complete: DialectView,
    index: int,
)
    requires
        operation.named(),
        unmapped_at(lacking, operation.columns, index),
        operation.mapped_by(complete),
    ensures
        operation.compiled(lacking) matches Err(CompileError::UnsupportedType(kind))
            && !lacking.maps(kind) && (first_unmapped_at(lacking, operation.columns, index)
            ==> kind == operation.columns[index].kind),
        operation.compiled(complete) is Ok,
{
    let first = lemma_some_unmapped_is_first(lacking, operation.columns, index);
    lemma_first_unmapped(lacking, operation.columns, first);
    if first_unmapped_at(lacking, operation.columns, index) {
        lemma_first_unmapped(lacking, operation.columns, index);
    }
    lemma_complete_operation_compiles(operation, complete);
}

/// The description of a table to create, built up step by step.
pub struct CreateTable {
    name: Option<String>,
    if_not_exists: bool,
    columns: Vec<Column>,
}

impl View for CreateTable {
    type V = CreateTableView;

    closed spec fn view(&self) -> CreateTableView {
        CreateTableView {
            name: match self.name {
                Some(name) => Some(name@),
                None => None,
            },
            if_not_exists: self.if_not_exists,
            columns: column_views(self.columns@),
        }
    }
}

impl CreateTable {
    /// An operation with no name and no columns, which creates
    /// unconditionally.
    pub fn new() -> (operation: CreateTable)
        ensures
            operation@ == (CreateTableView {
                name: None,
                if_not_exists: false,
                columns: Seq::empty(),
            }),
    {
        let operation = CreateTable { name: None, if_not_exists: false, columns: Vec::new() };
        assert(operation@.columns =~= Seq::empty());
        operation
    }

    /// The same operation for the table called `name`.
    pub fn name(self, name: &str) -> (operation: CreateTable)
        ensures
            operation@ == (CreateTableView { name: Some(name@), ..self@ }),
    {
        let mut operation = self;
        operation.name = Some(name.to_owned());
        operation
    }

    /// The same operation, creating the table only if it is absent.
    pub fn if_not_exists(self) -> (operation: CreateTable)
        ensures
            operation@ == (CreateTableView { if_not_exists: true, ..self@ }),
    {
        let mut operation = self;
        operation.if_not_exists = true;
        operation
    }

    /// The same operation with `column` after the columns it had.
    pub fn column(self, column: Column) -> (operation: CreateTable)
        ensures
            operation@ == (CreateTableView { columns: self@.columns.push(column@), ..self@ }),
    {
        let mut operation = self;
        operation.columns.push(column);
        assert(operation@.columns =~= self@.columns.push(column@));
        operation
    }
}

impl Operation for CreateTable {
    open spec fn compiled(&self, dialect: DialectView) -> Result<Seq<char>, CompileError> {
        self@.compiled(dialect)
    }

    fn compile(&self, dialect: &Dialect) -> (result: Result<CompiledStatement, CompileError>) {
        let name = match &self.name {
            Some(name) => name.as_str(),
            None => { return Err(CompileError::Incomplete(Field::Name)); },
        };
        if name.is_empty() {
            return Err(CompileError::Incomplete(Field::Name));
        }
        if self.columns.len() == 0 {
            return Err(CompileError::Incomplete(Field::Columns));
        }
        let ghost columns = self@.columns;
        let ghost head = create_table_head(dialect@, name@, self.if_not_exists);
        let mut text = String::new();
        text.append("CREATE TABLE ");
        if self.if_not_exists {
            text.append(dialect.if_not_exists());
            text.append(" ");
        }
        text.append(name);
        text.append(" (");
        assert(text@ =~= head);
        let mut index: usize = 0;
        while index < self.columns.len()
            invariant
                index <= self.columns.len(),
                self@.named(),
                columns == column_views(self.columns@),
                forall|earlier: int| 0 <= earlier < index ==> !unmapped_at(dialect@, columns, earlier),
                text@ == head + column_list(dialect@, columns, index as int),
            decreases self.columns.len() - index,
        {
            let column = &self.columns[index];
            match dialect.native_type(column.kind) {
                None => {
                    proof {
                        lemma_first_unmapped(dialect@, columns, index as int);
                    }
                    return Err(CompileError::UnsupportedType(column.kind));
                },
                Some(native) => {
                    if index > 0 {
                        text.append(", ");
                    }
                    text.append(column.name.as_str());
                    text.append(" ");
                    text.append(native);
                    assert(text@ =~= head + column_list(dialect@, columns, index + 1));
                },
            }
            index += 1;
        }
        text.append(")");
        assert(text@ =~= create_table_text(dialect@, name@, self.if_not_exists, columns));
        Ok(CompiledStatement { text })
    }
}

} // verus!
