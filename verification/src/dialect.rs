//! Dialects: the rules by which one backend spells its statements.

use crate::column::DataKind;
use vstd::prelude::*;

verus! {

/// The mathematical value of a [`Dialect`].
pub struct DialectView {
    /// The native type name of each data kind the backend knows.
    pub native_types: Map<DataKind, Seq<char>>,
    /// The clause that makes table creation conditional on absence.
    pub if_not_exists: Seq<char>,
}

impl DialectView {
    /// Whether the dialect has a native type for `kind`.
    pub open spec fn maps(self, kind: DataKind) -> bool {
        self.native_types.contains_key(kind)
    }
}

/// A backend's table of native type names, with its spelling of the
/// create-if-absent clause.
pub struct Dialect {
    integer: Option<String>,
    text: Option<String>,
    boolean: Option<String>,
    real: Option<String>,
    binary: Option<String>,
    if_not_exists: String,
}

impl Dialect {
    /// The entry that the table holds for `kind`.
    spec fn entry(&self, kind: DataKind) -> Option<String> {
        match kind {
            DataKind::Integer => self.integer,
            DataKind::Text => self.text,
            DataKind::Boolean => self.boolean,
            DataKind::Real => self.real,
            DataKind::Binary => self.binary,
        }
    }
}

impl View for Dialect {
    type V = DialectView;

    closed spec fn view(&self) -> DialectView {
        DialectView {
            native_types: Map::new(
                |kind: DataKind| self.entry(kind) is Some,
                |kind: DataKind| self.entry(kind).unwrap()@,
            ),
            if_not_exists: self.if_not_exists@,
        }
    }
}

impl Dialect {
    /// A dialect that spells the create-if-absent clause as `if_not_exists`
    /// and has no native type for any data kind yet.
    pub fn new(if_not_exists: &str) -> (dialect: Dialect)
        ensures
            dialect@.if_not_exists == if_not_exists@,
            dialect@.native_types == Map::<DataKind, Seq<char>>::empty(),
    {
        let dialect = Dialect {
            integer: None,
            text: None,
            boolean: None,
            real: None,
            binary: None,
            if_not_exists: if_not_exists.to_owned(),
        };
        assert(dialect@.native_types =~= Map::<DataKind, Seq<char>>::empty());
        dialect
    }

    /// The same dialect with `native_type` as the native type of `kind`,
    /// in place of any earlier one.
    pub fn with_type(self, kind: DataKind, native_type: &str) -> (dialect: Dialect)
        ensures
            dialect@.if_not_exists == self@.if_not_exists,
            dialect@.native_types == self@.native_types.insert(kind, native_type@),
    {
        let mut dialect = self;
        let entry = Some(native_type.to_owned());
        match kind {
            DataKind::Integer => { dialect.integer = entry; },
            DataKind::Text => { dialect.text = entry; },
            DataKind::Boolean => { dialect.boolean = entry; },
            DataKind::Real => { dialect.real = entry; },
            DataKind::Binary => { dialect.binary = entry; },
        }
        assert(dialect@.native_types =~= self@.native_types.insert(kind, native_type@));
        dialect
    }

    /// The same dialect with no native type for `kind`.
    pub fn without_type(self, kind: DataKind) -> (dialect: Dialect)
        ensures
            dialect@.if_not_exists == self@.if_not_exists,
            dialect@.native_types == self@.native_types.remove(kind),
    {
        let mut dialect = self;
        match kind {
            DataKind::Integer => { dialect.integer = None; },
            DataKind::Text => { dialect.text = None; },
            DataKind::Boolean => { dialect.boolean = None; },
            DataKind::Real => { dialect.real = None; },
            DataKind::Binary => { dialect.binary = None; },
        }
        assert(dialect@.native_types =~= self@.native_types.remove(kind));
        dialect
    }

    /// The native type name of `kind`, if the dialect has one.
    pub fn native_type(&self, kind: DataKind) -> (native_type: Option<&str>)
        ensures
            native_type is Some <==> self@.maps(kind),
            native_type matches Some(text) ==> text@ == self@.native_types[kind],
    {
        let entry = match kind {
            DataKind::Integer => &self.integer,
            DataKind::Text => &self.text,
            DataKind::Boolean => &self.boolean,
            DataKind::Real => &self.real,
            DataKind::Binary => &self.binary,
        };
        match entry {
            Some(text) => Some(text.as_str()),
            None => None,
        }
    }

    /// Whether the dialect has a native type for `kind`.
    pub fn supports(&self, kind: DataKind) -> (supported: bool)
        ensures
            supported == self@.maps(kind),
    {
        self.native_type(kind).is_some()
    }

    /// The dialect's spelling of the create-if-absent clause.
    pub fn if_not_exists(&self) -> (clause: &str)
        ensures
            clause@ == self@.if_not_exists,
    {
        self.if_not_exists.as_str()
    }
}

} // verus!
