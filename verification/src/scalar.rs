//! The scalar-type dispatcher: maps a runtime column-kind tag to the database
//! wire scalar type, and the list/nullable flags to the wrapper put around it.

use vstd::prelude::*;

verus! {

/// The runtime tag of a column's scalar kind. The `Enum` kind carries the
/// database-side enum type name; enum columns never take part in typed bind
/// dispatch and are always rendered through a text cast.
#[derive(Debug, Clone)]
pub enum ColumnKind {
    Boolean,
    BigDecimal,
    BigInt,
    Bytes,
    Int,
    Int8,
    Timestamp,
    String,
    FullTextIndex,
    Enum(std::string::String),
}

/// The mathematical value of a column kind.
pub enum ColumnKindV {
    Boolean,
    BigDecimal,
    BigInt,
    Bytes,
    Int,
    Int8,
    Timestamp,
    String,
    FullTextIndex,
    Enum(Seq<char>),
}

impl View for ColumnKind {
    type V = ColumnKindV;

    open spec fn view(&self) -> ColumnKindV {
        match self {
            ColumnKind::Boolean => ColumnKindV::Boolean,
            ColumnKind::BigDecimal => ColumnKindV::BigDecimal,
            ColumnKind::BigInt => ColumnKindV::BigInt,
            ColumnKind::Bytes => ColumnKindV::Bytes,
            ColumnKind::Int => ColumnKindV::Int,
            ColumnKind::Int8 => ColumnKindV::Int8,
            ColumnKind::Timestamp => ColumnKindV::Timestamp,
            ColumnKind::String => ColumnKindV::String,
            ColumnKind::FullTextIndex => ColumnKindV::FullTextIndex,
            ColumnKind::Enum(name) => ColumnKindV::Enum(name@),
        }
    }
}

impl ColumnKind {
    /// A copy with the same mathematical value.
    pub fn cloned(&self) -> (r: ColumnKind)
        ensures
            r@ == self@,
    {
        match self {
            ColumnKind::Boolean => ColumnKind::Boolean,
            ColumnKind::BigDecimal => ColumnKind::BigDecimal,
            ColumnKind::BigInt => ColumnKind::BigInt,
            ColumnKind::Bytes => ColumnKind::Bytes,
            ColumnKind::Int => ColumnKind::Int,
            ColumnKind::Int8 => ColumnKind::Int8,
            ColumnKind::Timestamp => ColumnKind::Timestamp,
            ColumnKind::String => ColumnKind::String,
            ColumnKind::FullTextIndex => ColumnKind::FullTextIndex,
            ColumnKind::Enum(name) => ColumnKind::Enum(name.clone()),
        }
    }
}

/// The database wire scalar type a value is bound or decoded as. Every
/// comparison picks its own wire type explicitly, never an inferred one.
#[derive(Debug, Clone, Copy, PartialEq, Eq, Structural)]
pub enum ScalarType {
    Bool,
    Numeric,
    Binary,
    Integer,
    BigInt,
    Timestamptz,
    Text,
}

/// How the wire scalar type is wrapped: the four combinations of the
/// orthogonal list and nullable flags.
#[derive(Debug, Clone, Copy, PartialEq, Eq, Structural)]
pub enum Wrapping {
    Plain,
    Nullable,
    Array,
    NullableArray,
}

/// The fixed kind-to-wire-type mapping. `Enum` is excluded: the concrete
/// database enum type name is not known to this generic dispatcher.
pub open spec fn kind_scalar_type(k: ColumnKindV) -> Option<ScalarType> {
    match k {
        ColumnKindV::Boolean => Some(ScalarType::Bool),
        ColumnKindV::BigDecimal => Some(ScalarType::Numeric),
        ColumnKindV::BigInt => Some(ScalarType::Numeric),
        ColumnKindV::Bytes => Some(ScalarType::Binary),
        ColumnKindV::Int => Some(ScalarType::Integer),
        ColumnKindV::Int8 => Some(ScalarType::BigInt),
        ColumnKindV::Timestamp => Some(ScalarType::Timestamptz),
        ColumnKindV::String => Some(ScalarType::Text),
        ColumnKindV::FullTextIndex => Some(ScalarType::Text),
        ColumnKindV::Enum(_) => None,
    }
}

impl ColumnKind {
    /// Dispatch this kind to its wire scalar type; `None` exactly for `Enum`.
    pub fn scalar_type(&self) -> (r: Option<ScalarType>)
        ensures
            r == kind_scalar_type(self@),
            r is None <==> self@ is Enum,
    {
        match self {
            ColumnKind::Boolean => Some(ScalarType::Bool),
            ColumnKind::BigDecimal => Some(ScalarType::Numeric),
            ColumnKind::BigInt => Some(ScalarType::Numeric),
            ColumnKind::Bytes => Some(ScalarType::Binary),
            ColumnKind::Int => Some(ScalarType::Integer),
            ColumnKind::Int8 => Some(ScalarType::BigInt),
            ColumnKind::Timestamp => Some(ScalarType::Timestamptz),
            ColumnKind::String => Some(ScalarType::Text),
            ColumnKind::FullTextIndex => Some(ScalarType::Text),
            ColumnKind::Enum(_) => None,
        }
    }
}

/// The wrapper combination for the given list and nullable flags.
pub open spec fn spec_wrapping(is_list: bool, is_nullable: bool) -> Wrapping {
    if is_list && is_nullable {
        Wrapping::NullableArray
    } else if is_list {
        Wrapping::Array
    } else if is_nullable {
        Wrapping::Nullable
    } else {
        Wrapping::Plain
    }
}

/// Select the wrapper matching a column's list and nullable flags.
pub fn wrapping(is_list: bool, is_nullable: bool) -> (r: Wrapping)
    ensures
        r == spec_wrapping(is_list, is_nullable),
{
    if is_list && is_nullable {
        Wrapping::NullableArray
    } else if is_list {
        Wrapping::Array
    } else if is_nullable {
        Wrapping::Nullable
    } else {
        Wrapping::Plain
    }
}

} // verus!
