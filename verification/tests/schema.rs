use relational_dsl::graphql::DirectiveLocation;
use relational_dsl::scalar::{ColumnKind, ScalarType, Wrapping};
use relational_dsl::select::DummyExpression;
use relational_dsl::table::{Column, IdType, Table};

#[test]
fn scalar_dispatch_is_the_fixed_mapping() {
    assert_eq!(ColumnKind::Boolean.scalar_type(), Some(ScalarType::Bool));
    assert_eq!(ColumnKind::BigDecimal.scalar_type(), Some(ScalarType::Numeric));
    assert_eq!(ColumnKind::BigInt.scalar_type(), Some(ScalarType::Numeric));
    assert_eq!(ColumnKind::Bytes.scalar_type(), Some(ScalarType::Binary));
    assert_eq!(ColumnKind::Int.scalar_type(), Some(ScalarType::Integer));
    assert_eq!(ColumnKind::Int8.scalar_type(), Some(ScalarType::BigInt));
    assert_eq!(ColumnKind::Timestamp.scalar_type(), Some(ScalarType::Timestamptz));
    assert_eq!(ColumnKind::String.scalar_type(), Some(ScalarType::Text));
    assert_eq!(ColumnKind::FullTextIndex.scalar_type(), Some(ScalarType::Text));
    assert_eq!(ColumnKind::Enum("color_t".to_string()).scalar_type(), None);
}

#[test]
fn wrapping_covers_the_four_combinations() {
    assert_eq!(relational_dsl::scalar::wrapping(false, false), Wrapping::Plain);
    assert_eq!(relational_dsl::scalar::wrapping(false, true), Wrapping::Nullable);
    assert_eq!(relational_dsl::scalar::wrapping(true, false), Wrapping::Array);
    assert_eq!(relational_dsl::scalar::wrapping(true, true), Wrapping::NullableArray);
}

#[test]
fn column_lookup_finds_declared_then_pseudo_columns() {
    let columns = vec![
        Column::new("id".to_string(), ColumnKind::String, false, false),
        Column::new("name".to_string(), ColumnKind::String, false, false),
    ];
    let table = Table::new(
        "sgd1".to_string(),
        "token".to_string(),
        "Token".to_string(),
        columns,
        0,
        false,
        false,
        false,
    );
    assert_eq!(table.column("name").unwrap().name, "name");
    assert_eq!(table.column("__typename").unwrap().name, "__typename");
    assert_eq!(table.column("vid").unwrap().name, "vid");
    assert!(table.column("bogus").is_none());
}

#[test]
fn id_kind_follows_the_primary_key() {
    let columns = vec![Column::new("id".to_string(), ColumnKind::Int8, false, false)];
    let table = Table::new(
        "sgd1".to_string(),
        "tally".to_string(),
        "Tally".to_string(),
        columns,
        0,
        false,
        false,
        false,
    );
    assert_eq!(table.id_kind(), IdType::Int8);
}

#[test]
fn dummy_expression_is_constructible() {
    let _ = DummyExpression::new();
}

#[test]
fn location_names_round_trip() {
    let locations = [
        DirectiveLocation::Query,
        DirectiveLocation::Mutation,
        DirectiveLocation::Subscription,
        DirectiveLocation::Field,
        DirectiveLocation::FragmentDefinition,
        DirectiveLocation::FragmentSpread,
        DirectiveLocation::InlineFragment,
        DirectiveLocation::VariableDefinition,
        DirectiveLocation::Schema,
        DirectiveLocation::Scalar,
        DirectiveLocation::Object,
        DirectiveLocation::FieldDefinition,
        DirectiveLocation::ArgumentDefinition,
        DirectiveLocation::Interface,
        DirectiveLocation::Union,
        DirectiveLocation::Enum,
        DirectiveLocation::EnumValue,
        DirectiveLocation::InputObject,
        DirectiveLocation::InputFieldDefinition,
    ];
    for loc in locations {
        assert_eq!(DirectiveLocation::from_str(loc.as_str()).unwrap(), loc);
    }
}

#[test]
fn query_and_schema_locations_partition() {
    assert!(DirectiveLocation::Query.is_query());
    assert!(DirectiveLocation::FragmentSpread.is_query());
    assert!(!DirectiveLocation::Query.is_schema());
    assert!(DirectiveLocation::Schema.is_schema());
    assert!(DirectiveLocation::EnumValue.is_schema());
    assert!(!DirectiveLocation::Schema.is_query());
}

#[test]
fn unknown_location_name_is_refused() {
    assert!(DirectiveLocation::from_str("QUERIES").is_err());
    assert!(DirectiveLocation::from_str("query").is_err());
    assert!(DirectiveLocation::from_str("").is_err());
}
