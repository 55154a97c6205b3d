//! The text of a create-table statement, and where its parts stand in it.

use crate::column::ColumnView;
use crate::dialect::DialectView;
use vstd::prelude::*;

verus! {

/// The declaration of one column: its name, a space, its native type.
pub open spec fn column_text(dialect: DialectView, column: ColumnView) -> Seq<char> {
    column.name + " "@ + dialect.native_types[column.kind]
}

/// The declarations of the first `count` columns, separated by `", "`.
pub open spec fn column_list(dialect: DialectView, columns: Seq<ColumnView>, count: int) -> Seq<
    char,
>
    decreases count,
{
    if count <= 0 {
        Seq::empty()
    } else if count == 1 {
        column_text(dialect, columns[0])
    } else {
        column_list(dialect, columns, count - 1) + ", "@ + column_text(dialect, columns[count - 1])
    }
}

/// A create-table statement up to its table name: the keyword and, where
/// creation is conditional, the dialect's clause and a space.
pub open spec fn create_table_opening(dialect: DialectView, if_not_exists: bool) -> Seq<char> {
    if if_not_exists {
        "CREATE TABLE "@ + dialect.if_not_exists + " "@
    } else {
        "CREATE TABLE "@
    }
}

/// A create-table statement up to and including its opening bracket.
pub open spec fn create_table_head(dialect: DialectView, name: Seq<char>, if_not_exists: bool) -> Seq<
    char,
> {
    create_table_opening(dialect, if_not_exists) + name + " ("@
}

/// The whole create-table statement.
pub open spec fn create_table_text(
    dialect: DialectView,
    name: Seq<char>,
    if_not_exists: bool,
    columns: Seq<ColumnView>,
) -> Seq<char> {
    create_table_head(dialect, name, if_not_exists) + column_list(
        dialect,
        columns,
        columns.len() as int,
    ) + ")"@
}

/// Whether `part` stands in `text` from offset `at` on.
pub open spec fn occurs_at(text: Seq<char>, part: Seq<char>, at: int) -> bool {
    0 <= at && at + part.len() <= text.len() && text.subrange(at, at + part.len()) == part
}

/// The offset of the table name in a create-table statement.
pub open spec fn name_offset(dialect: DialectView, if_not_exists: bool) -> int {
    create_table_opening(dialect, if_not_exists).len() as int
}

/// The offset of the declaration of `columns[index]` in a create-table
/// statement.
pub open spec fn column_offset(
    dialect: DialectView,
    name: Seq<char>,
    if_not_exists: bool,
    columns: Seq<ColumnView>,
    index: int,
) -> int {
    create_table_head(dialect, name, if_not_exists).len() + column_list(
        dialect,
        columns,
        index,
    ).len() + if index > 0 {
        ", "@.len() as int
    } else {
        0
    }
}

/// The declarations of the first columns open the declarations of more of
/// them.
pub proof fn lemma_column_list_grows(
    dialect: DialectView,
    columns: Seq<ColumnView>,
    fewer: int,
    more: int,
)
    requires
        fewer <= more,
    ensures
        column_list(dialect, columns, fewer).is_prefix_of(column_list(dialect, columns, more)),
    decreases more,
{
    if fewer < more && more > 1 {
        lemma_column_list_grows(dialect, columns, fewer, more - 1);
    }
}

/// In the list of the first `index + 1` declarations, that of
/// `columns[index]` comes last.
pub proof fn lemma_column_ends_list(dialect: DialectView, columns: Seq<ColumnView>, index: int)
    requires
        0 <= index,
    ensures
        column_list(dialect, columns, index + 1) == column_list(dialect, columns, index) + (if index
            > 0 {
            ", "@
        } else {
            Seq::empty()
        }) + column_text(dialect, columns[index]),
{
    if index == 0 {
        assert(column_list(dialect, columns, 1) =~= Seq::<char>::empty() + Seq::<char>::empty()
            + column_text(dialect, columns[0]));
    }
}

/// The table name stands in the statement at its offset, before the first
/// column.
pub proof fn lemma_name_position(
    dialect: DialectView,
    name: Seq<char>,
    if_not_exists: bool,
    columns: Seq<ColumnView>,
)
    ensures
        occurs_at(
            create_table_text(dialect, name, if_not_exists, columns),
            name,
            name_offset(dialect, if_not_exists),
        ),
        name_offset(dialect, if_not_exists) + name.len() <= column_offset(
            dialect,
            name,
            if_not_exists,
            columns,
            0,
        ),
{
    let text = create_table_text(dialect, name, if_not_exists, columns);
    let at = name_offset(dialect, if_not_exists);
    assert(text.subrange(at, at + name.len()) =~= name);
}

/// The declaration of `columns[index]`, and so its name, stands in the
/// statement at its offset.
pub proof fn lemma_column_position(
    dialect: DialectView,
    name: Seq<char>,
    if_not_exists: bool,
    columns: Seq<ColumnView>,
    index: int,
)
    requires
        0 <= index < columns.len(),
    ensures
        occurs_at(
            create_table_text(dialect, name, if_not_exists, columns),
            column_text(dialect, columns[index]),
            column_offset(dialect, name, if_not_exists, columns, index),
        ),
        occurs_at(
            create_table_text(dialect, name, if_not_exists, columns),
            columns[index].name,
            column_offset(dialect, name, if_not_exists, columns, index),
        ),
{
    let text = create_table_text(dialect, name, if_not_exists, columns);
    let head = create_table_head(dialect, name, if_not_exists);
    let list = column_list(dialect, columns, columns.len() as int);
    let through = column_list(dialect, columns, index + 1);
    let declaration = column_text(dialect, columns[index]);
    let at = column_offset(dialect, name, if_not_exists, columns, index);
    lemma_column_ends_list(dialect, columns, index);
    lemma_column_list_grows(dialect, columns, index + 1, columns.len() as int);
    assert(through.subrange(at - head.len(), through.len() as int) =~= declaration);
    assert(text.subrange(at, at + declaration.len()) =~= declaration);
    assert(text.subrange(at, at + columns[index].name.len()) =~= columns[index].name);
}

/// The declaration of an earlier column ends before that of a later one
/// begins.
pub proof fn lemma_column_order(
    dialect: DialectView,
    name: Seq<char>,
    if_not_exists: bool,
    columns: Seq<ColumnView>,
    earlier: int,
    later: int,
)
    requires
        0 <= earlier < later,
    ensures
        column_offset(dialect, name, if_not_exists, columns, earlier) + column_text(
            dialect,
            columns[earlier],
        ).len() <= column_offset(dialect, name, if_not_exists, columns, later),
{
    lemma_column_ends_list(dialect, columns, earlier);
    lemma_column_list_grows(dialect, columns, earlier + 1, later);
}

} // verus!
