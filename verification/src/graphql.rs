//! Compact GraphQL schema atoms: the plain-data pieces of the schema layer
//! that feed table descriptors — an integer literal, a type reference, and
//! directive locations with their GraphQL-syntax names.

use vstd::prelude::*;
use crate::text::str_eq;

verus! {

/// A GraphQL integer literal. A 64-bit value is the reference range; the
/// language itself promises no more than 32 bits.
#[derive(Debug, Clone, PartialEq)]
pub struct Number(pub(crate) i64);

/// A GraphQL type reference: a named type, a list of a type, or a non-null
/// wrapper around one.
#[derive(Debug)]
pub enum Type {
    NamedType(String),
    ListType(Box<Type>),
    NonNullType(Box<Type>),
}

/// Where a directive may appear: the executable locations, then the type
/// system ones.
#[derive(Debug, Clone, Copy, PartialEq, Eq, Hash, Structural)]
pub enum DirectiveLocation {
    Query,
    Mutation,
    Subscription,
    Field,
    FragmentDefinition,
    FragmentSpread,
    InlineFragment,
    VariableDefinition,
    Schema,
    Scalar,
    Object,
    FieldDefinition,
    ArgumentDefinition,
    Interface,
    Union,
    Enum,
    EnumValue,
    InputObject,
    InputFieldDefinition,
}

/// The error of parsing a string that names no directive location.
#[derive(Debug)]
pub struct InvalidDirectiveLocation;

impl DirectiveLocation {
    /// The GraphQL-syntax name of the location.
    pub open spec fn spec_name(self) -> Seq<char> {
        match self {
            DirectiveLocation::Query => "QUERY"@,
            DirectiveLocation::Mutation => "MUTATION"@,
            DirectiveLocation::Subscription => "SUBSCRIPTION"@,
            DirectiveLocation::Field => "FIELD"@,
            DirectiveLocation::FragmentDefinition => "FRAGMENT_DEFINITION"@,
            DirectiveLocation::FragmentSpread => "FRAGMENT_SPREAD"@,
            DirectiveLocation::InlineFragment => "INLINE_FRAGMENT"@,
            DirectiveLocation::VariableDefinition => "VARIABLE_DEFINITION"@,
            DirectiveLocation::Schema => "SCHEMA"@,
            DirectiveLocation::Scalar => "SCALAR"@,
            DirectiveLocation::Object => "OBJECT"@,
            DirectiveLocation::FieldDefinition => "FIELD_DEFINITION"@,
            DirectiveLocation::ArgumentDefinition => "ARGUMENT_DEFINITION"@,
            DirectiveLocation::Interface => "INTERFACE"@,
            DirectiveLocation::Union => "UNION"@,
            DirectiveLocation::Enum => "ENUM"@,
            DirectiveLocation::EnumValue => "ENUM_VALUE"@,
            DirectiveLocation::InputObject => "INPUT_OBJECT"@,
            DirectiveLocation::InputFieldDefinition => "INPUT_FIELD_DEFINITION"@,
        }
    }

    /// Whether the location belongs to query execution rather than to the
    /// type system.
    pub open spec fn spec_is_query(self) -> bool {
        match self {
            DirectiveLocation::Query => true,
            DirectiveLocation::Mutation => true,
            DirectiveLocation::Subscription => true,
            DirectiveLocation::Field => true,
            DirectiveLocation::FragmentDefinition => true,
            DirectiveLocation::FragmentSpread => true,
            DirectiveLocation::InlineFragment => true,
            DirectiveLocation::VariableDefinition => true,
            _ => false,
        }
    }

    /// Returns the GraphQL-syntax compatible name of the directive location.
    pub fn as_str(&self) -> (r: &'static str)
        ensures
            r@ == self.spec_name(),
    {
        match self {
            DirectiveLocation::Query => "QUERY",
            DirectiveLocation::Mutation => "MUTATION",
            DirectiveLocation::Subscription => "SUBSCRIPTION",
            DirectiveLocation::Field => "FIELD",
            DirectiveLocation::FragmentDefinition => "FRAGMENT_DEFINITION",
            DirectiveLocation::FragmentSpread => "FRAGMENT_SPREAD",
            DirectiveLocation::InlineFragment => "INLINE_FRAGMENT",
            DirectiveLocation::VariableDefinition => "VARIABLE_DEFINITION",
            DirectiveLocation::Schema => "SCHEMA",
            DirectiveLocation::Scalar => "SCALAR",
            DirectiveLocation::Object => "OBJECT",
            DirectiveLocation::FieldDefinition => "FIELD_DEFINITION",
            DirectiveLocation::ArgumentDefinition => "ARGUMENT_DEFINITION",
            DirectiveLocation::Interface => "INTERFACE",
            DirectiveLocation::Union => "UNION",
            DirectiveLocation::Enum => "ENUM",
            DirectiveLocation::EnumValue => "ENUM_VALUE",
            DirectiveLocation::InputObject => "INPUT_OBJECT",
            DirectiveLocation::InputFieldDefinition => "INPUT_FIELD_DEFINITION",
        }
    }

    /// Returns `true` if this location is for queries (execution).
    pub fn is_query(&self) -> (r: bool)
        ensures
            r == self.spec_is_query(),
    {
        match self {
            DirectiveLocation::Query
            | DirectiveLocation::Mutation
            | DirectiveLocation::Subscription
            | DirectiveLocation::Field
            | DirectiveLocation::FragmentDefinition
            | DirectiveLocation::FragmentSpread
            | DirectiveLocation::InlineFragment
            | DirectiveLocation::VariableDefinition => true,
            _ => false,
        }
    }

    /// Returns `true` if this location is for the schema (type system).
    pub fn is_schema(&self) -> (r: bool)
        ensures
            r == !self.spec_is_query(),
    {
        !self.is_query()
    }

    /// Parse a GraphQL-syntax location name; exactly the rendered names are
    /// accepted.
    pub fn from_str(s: &str) -> (r: Result<DirectiveLocation, InvalidDirectiveLocation>)
        ensures
            match r {
                Ok(loc) => loc.spec_name() == s@,
                Err(_) => forall|loc: DirectiveLocation| (#[trigger] loc.spec_name()) != s@,
            },
    {
        if str_eq(s, "QUERY") {
            Ok(DirectiveLocation::Query)
        } else if str_eq(s, "MUTATION") {
            Ok(DirectiveLocation::Mutation)
        } else if str_eq(s, "SUBSCRIPTION") {
            Ok(DirectiveLocation::Subscription)
        } else if str_eq(s, "FIELD") {
            Ok(DirectiveLocation::Field)
        } else if str_eq(s, "FRAGMENT_DEFINITION") {
            Ok(DirectiveLocation::FragmentDefinition)
        } else if str_eq(s, "FRAGMENT_SPREAD") {
            Ok(DirectiveLocation::FragmentSpread)
        } else if str_eq(s, "INLINE_FRAGMENT") {
            Ok(DirectiveLocation::InlineFragment)
        } else if str_eq(s, "VARIABLE_DEFINITION") {
            Ok(DirectiveLocation::VariableDefinition)
        } else if str_eq(s, "SCHEMA") {
            Ok(DirectiveLocation::Schema)
        } else if str_eq(s, "SCALAR") {
            Ok(DirectiveLocation::Scalar)
        } else if str_eq(s, "OBJECT") {
            Ok(DirectiveLocation::Object)
        } else if str_eq(s, "FIELD_DEFINITION") {
            Ok(DirectiveLocation::FieldDefinition)
        } else if str_eq(s, "ARGUMENT_DEFINITION") {
            Ok(DirectiveLocation::ArgumentDefinition)
        } else if str_eq(s, "INTERFACE") {
            Ok(DirectiveLocation::Interface)
        } else if str_eq(s, "UNION") {
            Ok(DirectiveLocation::Union)
        } else if str_eq(s, "ENUM") {
            Ok(DirectiveLocation::Enum)
        } else if str_eq(s, "ENUM_VALUE") {
            Ok(DirectiveLocation::EnumValue)
        } else if str_eq(s, "INPUT_OBJECT") {
            Ok(DirectiveLocation::InputObject)
        } else if str_eq(s, "INPUT_FIELD_DEFINITION") {
            Ok(DirectiveLocation::InputFieldDefinition)
        } else {
            Err(InvalidDirectiveLocation)
        }
    }
}

} // verus!
