use dbschema::column::{Column, DataKind};
use dbschema::dialect::Dialect;
use dbschema::operation::{CompileError, CreateTable, Field, Operation};

fn full_dialect() -> Dialect {
    Dialect::new("IF NOT EXISTS")
        .with_type(DataKind::Integer, "INTEGER")
        .with_type(DataKind::Text, "TEXT")
        .with_type(DataKind::Boolean, "BOOLEAN")
        .with_type(DataKind::Real, "REAL")
        .with_type(DataKind::Binary, "BLOB")
}

fn users() -> CreateTable {
    CreateTable::new()
        .name("users")
        .column(Column::new("id", DataKind::Integer))
        .column(Column::new("name", DataKind::Text))
}

#[test]
fn compiles_name_and_columns_in_order() {
    let statement = users().compile(&full_dialect()).unwrap();
    assert_eq!(statement.as_str(), "CREATE TABLE users (id INTEGER, name TEXT)");
}

#[test]
fn statement_holds_every_name_in_input_order() {
    let names = ["alpha", "beta", "gamma", "delta"];
    let mut operation = CreateTable::new().name("greek");
    for name in names {
        operation = operation.column(Column::new(name, DataKind::Real));
    }
    let statement = operation.compile(&full_dialect()).unwrap();
    let text = statement.as_str();
    let mut from = text.find("greek").unwrap() + "greek".len();
    for name in names {
        let at = from + text[from..].find(name).unwrap();
        assert!(at >= from);
        from = at + name.len();
    }
    assert_eq!(text, "CREATE TABLE greek (alpha REAL, beta REAL, gamma REAL, delta REAL)");
}

#[test]
fn single_column_has_no_separator() {
    let operation = CreateTable::new().name("t").column(Column::new("flag", DataKind::Boolean));
    let statement = operation.compile(&full_dialect()).unwrap();
    assert_eq!(statement.as_str(), "CREATE TABLE t (flag BOOLEAN)");
}

#[test]
fn every_kind_is_spelled_by_the_dialect() {
    let operation = CreateTable::new()
        .name("kinds")
        .column(Column::new("a", DataKind::Integer))
        .column(Column::new("b", DataKind::Text))
        .column(Column::new("c", DataKind::Boolean))
        .column(Column::new("d", DataKind::Real))
        .column(Column::new("e", DataKind::Binary));
    let statement = operation.compile(&full_dialect()).unwrap();
    assert_eq!(
        statement.as_str(),
        "CREATE TABLE kinds (a INTEGER, b TEXT, c BOOLEAN, d REAL, e BLOB)"
    );
}

#[test]
fn if_not_exists_adds_the_clause() {
    let statement = users().if_not_exists().compile(&full_dialect()).unwrap();
    assert_eq!(statement.as_str(), "CREATE TABLE IF NOT EXISTS users (id INTEGER, name TEXT)");
}

#[test]
fn if_not_exists_stays_engaged_when_asked_twice() {
    let statement = users().if_not_exists().if_not_exists().compile(&full_dialect()).unwrap();
    assert_eq!(statement.as_str(), "CREATE TABLE IF NOT EXISTS users (id INTEGER, name TEXT)");
}

#[test]
fn clause_is_the_dialects_own() {
    let dialect = Dialect::new("UNLESS PRESENT").with_type(DataKind::Integer, "INT8");
    let operation =
        CreateTable::new().if_not_exists().name("t").column(Column::new("n", DataKind::Integer));
    let statement = operation.compile(&dialect).unwrap();
    assert_eq!(statement.as_str(), "CREATE TABLE UNLESS PRESENT t (n INT8)");
}

#[test]
fn missing_name_is_incomplete() {
    let operation = CreateTable::new()
        .column(Column::new("id", DataKind::Integer))
        .column(Column::new("name", DataKind::Text));
    let error = operation.compile(&full_dialect()).unwrap_err();
    assert_eq!(error, CompileError::Incomplete(Field::Name));
    match error {
        CompileError::Incomplete(field) => assert_eq!(field.label(), "name"),
        CompileError::UnsupportedType(_) => panic!("the name is missing"),
    }
    let named = operation.name("users");
    assert!(named.compile(&full_dialect()).is_ok());
}

#[test]
fn empty_name_is_incomplete() {
    let operation = CreateTable::new().name("").column(Column::new("id", DataKind::Integer));
    assert_eq!(
        operation.compile(&full_dialect()).unwrap_err(),
        CompileError::Incomplete(Field::Name)
    );
}

#[test]
fn later_name_takes_the_place_of_an_earlier_one() {
    let operation =
        CreateTable::new().name("first").name("second").column(Column::new("id", DataKind::Integer));
    let statement = operation.compile(&full_dialect()).unwrap();
    assert_eq!(statement.as_str(), "CREATE TABLE second (id INTEGER)");
}

#[test]
fn missing_columns_are_incomplete() {
    let operation = CreateTable::new().name("users");
    let error = operation.compile(&full_dialect()).unwrap_err();
    assert_eq!(error, CompileError::Incomplete(Field::Columns));
    assert_eq!(Field::Columns.label(), "columns");
}

#[test]
fn name_is_looked_at_before_columns_and_kinds() {
    let bare = Dialect::new("IF NOT EXISTS");
    assert_eq!(
        CreateTable::new().compile(&bare).unwrap_err(),
        CompileError::Incomplete(Field::Name)
    );
    let unnamed = CreateTable::new().column(Column::new("x", DataKind::Binary));
    assert_eq!(unnamed.compile(&bare).unwrap_err(), CompileError::Incomplete(Field::Name));
    assert_eq!(
        CreateTable::new().name("t").compile(&bare).unwrap_err(),
        CompileError::Incomplete(Field::Columns)
    );
}

#[test]
fn unmapped_kind_is_unsupported_for_that_dialect_only() {
    let lacking = Dialect::new("IF NOT EXISTS").with_type(DataKind::Integer, "INTEGER");
    let operation = CreateTable::new()
        .name("measures")
        .column(Column::new("id", DataKind::Integer))
        .column(Column::new("value", DataKind::Real));
    assert_eq!(
        operation.compile(&lacking).unwrap_err(),
        CompileError::UnsupportedType(DataKind::Real)
    );
    let statement = operation.compile(&full_dialect()).unwrap();
    assert_eq!(statement.as_str(), "CREATE TABLE measures (id INTEGER, value REAL)");
}

#[test]
fn first_unmapped_kind_is_the_one_reported() {
    let lacking = Dialect::new("IF NOT EXISTS").with_type(DataKind::Integer, "INTEGER");
    let operation = CreateTable::new()
        .name("t")
        .column(Column::new("a", DataKind::Integer))
        .column(Column::new("b", DataKind::Binary))
        .column(Column::new("c", DataKind::Text))
        .column(Column::new("d", DataKind::Binary));
    assert_eq!(
        operation.compile(&lacking).unwrap_err(),
        CompileError::UnsupportedType(DataKind::Binary)
    );
}

#[test]
fn compiling_again_gives_the_same_statement() {
    let operation = users().if_not_exists();
    let dialect = full_dialect();
    let first = operation.compile(&dialect).unwrap();
    let second = operation.compile(&dialect).unwrap();
    assert_eq!(first.as_str(), second.as_str());
    let failing = CreateTable::new();
    assert_eq!(failing.compile(&dialect).unwrap_err(), failing.compile(&dialect).unwrap_err());
}

#[test]
fn names_are_written_as_given() {
    let operation = CreateTable::new()
        .name("order lines")
        .column(Column::new("", DataKind::Integer))
        .column(Column::new("größe", DataKind::Real));
    let statement = operation.compile(&full_dialect()).unwrap();
    assert_eq!(statement.as_str(), "CREATE TABLE order lines ( INTEGER, größe REAL)");
}
