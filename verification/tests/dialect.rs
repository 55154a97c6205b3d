use dbschema::column::{copy_columns, Column, DataKind};
use dbschema::dialect::Dialect;
use dbschema::driver::DriverError;
use dbschema::error::Error;
use dbschema::operation::{CompileError, Field};

const KINDS: [DataKind; 5] =
    [DataKind::Integer, DataKind::Text, DataKind::Boolean, DataKind::Real, DataKind::Binary];

#[test]
fn new_dialect_maps_nothing() {
    let dialect = Dialect::new("IF NOT EXISTS");
    assert_eq!(dialect.if_not_exists(), "IF NOT EXISTS");
    for kind in KINDS {
        assert_eq!(dialect.native_type(kind), None);
        assert!(!dialect.supports(kind));
    }
}

#[test]
fn with_type_maps_one_kind() {
    for kind in KINDS {
        let dialect = Dialect::new("IF NOT EXISTS").with_type(kind, "NATIVE");
        for other in KINDS {
            if other == kind {
                assert_eq!(dialect.native_type(other), Some("NATIVE"));
                assert!(dialect.supports(other));
            } else {
                assert_eq!(dialect.native_type(other), None);
                assert!(!dialect.supports(other));
            }
        }
        assert_eq!(dialect.if_not_exists(), "IF NOT EXISTS");
    }
}

#[test]
fn with_type_replaces_an_earlier_name() {
    let dialect = Dialect::new("IF NOT EXISTS")
        .with_type(DataKind::Binary, "BLOB")
        .with_type(DataKind::Text, "TEXT")
        .with_type(DataKind::Binary, "BYTEA");
    assert_eq!(dialect.native_type(DataKind::Binary), Some("BYTEA"));
    assert_eq!(dialect.native_type(DataKind::Text), Some("TEXT"));
}

#[test]
fn without_type_unmaps_one_kind() {
    let dialect = Dialect::new("IF NOT EXISTS")
        .with_type(DataKind::Integer, "INTEGER")
        .with_type(DataKind::Real, "REAL")
        .without_type(DataKind::Real)
        .without_type(DataKind::Boolean);
    assert_eq!(dialect.native_type(DataKind::Integer), Some("INTEGER"));
    assert_eq!(dialect.native_type(DataKind::Real), None);
    assert_eq!(dialect.native_type(DataKind::Boolean), None);
    assert_eq!(dialect.if_not_exists(), "IF NOT EXISTS");
}

#[test]
fn column_holds_its_name_and_kind() {
    let column = Column::new("id", DataKind::Integer);
    assert_eq!(column.name, "id");
    assert_eq!(column.kind, DataKind::Integer);
}

#[test]
fn columns_compare_by_name_and_kind() {
    let column = Column::new("id", DataKind::Integer);
    assert_eq!(column, Column::new("id", DataKind::Integer));
    assert_eq!(column.clone(), column);
    assert_ne!(column, Column::new("id", DataKind::Text));
    assert_ne!(column, Column::new("ID", DataKind::Integer));
}

#[test]
fn copies_keep_every_column_in_order() {
    let columns = [
        Column::new("id", DataKind::Integer),
        Column::new("name", DataKind::Text),
        Column::new("id", DataKind::Binary),
    ];
    let copies = copy_columns(&columns);
    assert_eq!(copies, columns);
    assert_eq!(copies[2], Column::new("id", DataKind::Binary));
    assert!(copy_columns(&[]).is_empty());
}

#[test]
fn errors_keep_what_they_wrap() {
    let compile = CompileError::UnsupportedType(DataKind::Binary);
    assert_eq!(Error::from(compile), Error::Compile(compile));
    assert_eq!(
        Error::from(CompileError::Incomplete(Field::Name)),
        Error::Compile(CompileError::Incomplete(Field::Name))
    );
    assert_eq!(Error::from(DriverError::Timeout), Error::Driver(DriverError::Timeout));
    assert_ne!(
        Error::from(DriverError::ConnectionLost),
        Error::from(DriverError::SyntaxRejected)
    );
}
