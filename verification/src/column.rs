//! Columns and the portable data kinds they are declared with.

use vstd::prelude::*;
use vstd::std_specs::cmp::PartialEqSpecImpl;

verus! {

/// A portable logical type, which a backend maps to a native type of its own.
#[derive(Clone, Copy, Debug, PartialEq, Eq, Structural)]
pub enum DataKind {
    Integer,
    Text,
    Boolean,
    Real,
    Binary,
}

/// The mathematical value of a [`Column`].
pub struct ColumnView {
    pub name: Seq<char>,
    pub kind: DataKind,
}

/// One column of a table: its name and its logical data kind.
#[derive(Debug)]
pub struct Column {
    pub name: String,
    pub kind: DataKind,
}

impl View for Column {
    type V = ColumnView;

    open spec fn view(&self) -> ColumnView {
        ColumnView { name: self.name@, kind: self.kind }
    }
}

/// The mathematical values of a run of columns, in order.
pub open spec fn column_views(columns: Seq<Column>) -> Seq<ColumnView> {
    columns.map_values(|column: Column| column@)
}

impl Column {
    /// A column called `name` that holds values of `kind`.
    pub fn new(name: &str, kind: DataKind) -> (column: Column)
        ensures
            column@ == (ColumnView { name: name@, kind }),
    {
        Column { name: name.to_owned(), kind }
    }
}

/// Copies of `columns`, in the same order.
pub fn copy_columns(columns: &[Column]) -> (copies: Vec<Column>)
    ensures
        column_views(copies@) == column_views(columns@),
{
    let mut copies: Vec<Column> = Vec::new();
    let mut index: usize = 0;
    while index < columns.len()
        invariant
            index <= columns.len(),
            column_views(copies@) =~= column_views(columns@).take(index as int),
        decreases columns.len() - index,
    {
        let ghost before = copies@;
        let copy = columns[index].clone();
        copies.push(copy);
        assert(column_views(copies@) =~= column_views(before).push(copy@));
        index += 1;
    }
    copies
}

impl PartialEq for Column {
    fn eq(&self, other: &Column) -> (equal: bool) {
        self.name == other.name && self.kind == other.kind
    }
}

impl PartialEqSpecImpl for Column {
    open spec fn obeys_eq_spec() -> bool {
        true
    }

    open spec fn eq_spec(&self, other: &Column) -> bool {
        self@ == other@
    }
}

impl Eq for Column {

}

impl Clone for Column {
    fn clone(&self) -> (copy: Column)
        ensures
            copy@ == self@,
    {
        Column { name: self.name.clone(), kind: self.kind }
    }
}

} // verus!
