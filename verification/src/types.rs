//! Type identifiers and value formats.

use vstd::prelude::*;

verus! {

/// A PostgreSQL object identifier.
pub type Oid = u32;

/// The OID of `text`, the type that stands in for every type that is not
/// built in.
pub const TEXT_OID: Oid = 25;

/// A PostgreSQL type, known by its OID.
#[derive(Clone, Copy, Debug, PartialEq, Eq, Structural)]
pub struct Type {
    /// The OID of this type.
    pub oid: Oid,
}

impl Type {
    /// The OID of this type.
    pub fn oid(&self) -> (oid: Oid)
        ensures
            oid == self.oid,
    {
        self.oid
    }

    /// The `text` type.
    pub fn text() -> (t: Type)
        ensures
            t == (Type { oid: TEXT_OID }),
    {
        Type { oid: TEXT_OID }
    }

    /// The type that a lookup among the built-in types stands for: the type
    /// found, or `text` where none was found.
    pub open spec fn spec_or_text(found: Option<Oid>) -> Type {
        match found {
            Some(oid) => Type { oid },
            None => Type { oid: TEXT_OID },
        }
    }

    /// The type that a lookup among the built-in types stands for: the type
    /// found, or `text` where none was found.
    #[verifier::when_used_as_spec(spec_or_text)]
    pub fn or_text(found: Option<Oid>) -> (t: Type)
        ensures
            t == Type::spec_or_text(found),
    {
        match found {
            Some(oid) => Type { oid },
            None => Type::text(),
        }
    }
}

/// The wire format of a value.
#[derive(Clone, Copy, Debug, PartialEq, Eq, Structural)]
pub enum Format {
    /// Text format (UTF-8).
    Text,
    /// Typed binary format.
    Binary,
}

impl Format {
    /// The format code as it appears on the wire: 0 for text, 1 for binary.
    pub open spec fn spec_code(&self) -> i16 {
        match *self {
            Format::Text => 0i16,
            Format::Binary => 1i16,
        }
    }

    /// The format code as it appears on the wire.
    #[verifier::when_used_as_spec(spec_code)]
    pub fn code(&self) -> (code: i16)
        ensures
            code == self.spec_code(),
    {
        match self {
            Format::Text => 0,
            Format::Binary => 1,
        }
    }
}

} // verus!
