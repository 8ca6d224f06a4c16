//! The type model: the small lattice of primitive and named types, and the
//! compatibility predicate between them.

use vstd::prelude::*;
use vstd::string::StringExecFns;
use crate::text::str_eq;

verus! {

/// A static type as the checker sees it: `Void` for statements, `CDecimal`
/// for numeric literals, `CString` for quoted literals, and `Custom` for any
/// named type (a primitive alias or a user-declared class).
pub enum DataType {
    Void,
    CDecimal,
    CString,
    Custom(String),
}

/// The mathematical value of a `DataType`: the same shape with the name held
/// as a sequence of characters.
pub enum TypeV {
    Void,
    CDecimal,
    CString,
    Custom(Seq<char>),
}

impl DataType {
    /// The mathematical value of this type.
    pub open spec fn dv(self) -> TypeV {
        match self {
            DataType::Void => TypeV::Void,
            DataType::CDecimal => TypeV::CDecimal,
            DataType::CString => TypeV::CString,
            DataType::Custom(name) => TypeV::Custom(name@),
        }
    }

    /// An exact copy of this type.
    pub fn duplicate(&self) -> (r: DataType)
        ensures
            r.dv() == self.dv(),
    {
        match self {
            DataType::Void => DataType::Void,
            DataType::CDecimal => DataType::CDecimal,
            DataType::CString => DataType::CString,
            DataType::Custom(name) => DataType::Custom(name.clone()),
        }
    }

    /// Structural equality of two types; two named types are equal when they
    /// carry the same name.
    pub fn same_as(&self, other: &DataType) -> (r: bool)
        ensures
            r == (self.dv() == other.dv()),
    {
        match (self, other) {
            (DataType::Void, DataType::Void) => true,
            (DataType::CDecimal, DataType::CDecimal) => true,
            (DataType::CString, DataType::CString) => true,
            (DataType::Custom(a), DataType::Custom(b)) => str_eq(a.as_str(), b.as_str()),
            _ => false,
        }
    }

    /// How this type is spelled in the generated C text. A `CString` has no
    /// C spelling yet, so it yields nothing; the checker turns that into an
    /// unsupported-construct error.
    pub fn spell(&self) -> (r: Option<String>)
        ensures
            match r {
                Some(s) => spell_type(self.dv()) == Some(s@),
                None => spell_type(self.dv()) is None,
            },
    {
        match self {
            DataType::Void => Some(String::from_str("void")),
            DataType::CDecimal => Some(String::from_str("int")),
            DataType::CString => None,
            DataType::Custom(custom) => Some(custom.clone()),
        }
    }
}

/// The C spelling of a checked type, if it has one.
pub open spec fn spell_type(t: TypeV) -> Option<Seq<char>> {
    match t {
        TypeV::Void => Some("void"@),
        TypeV::CDecimal => Some("int"@),
        TypeV::CString => None,
        TypeV::Custom(custom) => Some(custom),
    }
}

/// Whether `name` spells one of the numeric primitive aliases that the
/// `CDecimal` type is interchangeable with.
pub open spec fn numeric_alias(name: Seq<char>) -> bool {
    ||| name == "c_char"@
    ||| name == "c_short"@
    ||| name == "c_int"@
    ||| name == "c_long"@
    ||| name == "c_float"@
    ||| name == "c_double"@
}

/// Whether `name` spells the string primitive alias.
pub open spec fn string_alias(name: Seq<char>) -> bool {
    name == "c_string"@
}

/// The compatibility predicate between an expected and a found type: true on
/// structural equality; `CDecimal` is interchangeable with any of a fixed
/// whitelist of numeric primitive aliases and `CString` with the string
/// alias, tried in both directions so the order of the two sides never
/// matters. No other coercion exists.
pub open spec fn compatible(expected: TypeV, found: TypeV) -> bool {
    ||| expected == found
    ||| (expected is CDecimal && (found matches TypeV::Custom(name) && numeric_alias(name)))
    ||| (expected is CString && (found matches TypeV::Custom(name) && string_alias(name)))
    ||| (found is CDecimal && (expected matches TypeV::Custom(name) && numeric_alias(name)))
    ||| (found is CString && (expected matches TypeV::Custom(name) && string_alias(name)))
}

/// Whether `name` spells a numeric primitive alias.
pub fn is_numeric_alias(name: &str) -> (r: bool)
    ensures
        r == numeric_alias(name@),
{
    str_eq(name, "c_char") || str_eq(name, "c_short") || str_eq(name, "c_int") || str_eq(
        name,
        "c_long",
    ) || str_eq(name, "c_float") || str_eq(name, "c_double")
}

/// The compatibility predicate is symmetric: either side may stand for the
/// expected type without changing the verdict.
pub proof fn lemma_compatible_symmetric(a: TypeV, b: TypeV)
    ensures
        compatible(a, b) == compatible(b, a),
{
}

} // verus!
