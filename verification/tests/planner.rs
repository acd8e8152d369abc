use relational_dsl::scalar::ColumnKind;
use relational_dsl::select::SelectEntry;
use relational_dsl::table::{AttributeNames, Column, IdType, StoreError, Table};

fn token_table(immutable: bool) -> Table {
    let columns = vec![
        Column::new("id".to_string(), ColumnKind::String, false, false),
        Column::new("zeta".to_string(), ColumnKind::Int, false, false),
        Column::new("alpha".to_string(), ColumnKind::String, false, true),
        Column::new("name".to_string(), ColumnKind::String, false, false),
        Column::new("flavor".to_string(), ColumnKind::Enum("flavor_t".to_string()), false, true),
    ];
    Table::new(
        "sgd1".to_string(),
        "token".to_string(),
        "Token".to_string(),
        columns,
        0,
        immutable,
        false,
        false,
    )
}

fn names_of(cols: &[Column]) -> Vec<String> {
    cols.iter().map(|c| c.name.clone()).collect()
}

#[test]
fn select_always_puts_primary_key_first() {
    let table = token_table(false);
    let request = AttributeNames::Select(vec!["name".to_string()]);
    let cols = table.selected_columns(&request, None, false, false).unwrap();
    assert_eq!(names_of(&cols), vec!["id", "name"]);
}

#[test]
fn select_requests_each_attribute_once() {
    let table = token_table(false);
    let request = AttributeNames::Select(vec!["name".to_string(), "name".to_string()]);
    let cols = table.selected_columns(&request, None, false, false).unwrap();
    assert_eq!(names_of(&cols), vec!["id", "name"]);
}

#[test]
fn select_orders_attributes_lexicographically() {
    let table = token_table(false);
    let request = AttributeNames::Select(vec!["zeta".to_string(), "alpha".to_string()]);
    let cols = table.selected_columns(&request, None, false, false).unwrap();
    assert_eq!(names_of(&cols), vec!["id", "alpha", "zeta"]);
}

#[test]
fn select_ignores_an_explicit_id_request() {
    let table = token_table(false);
    let request = AttributeNames::Select(vec!["id".to_string(), "name".to_string()]);
    let cols = table.selected_columns(&request, None, false, false).unwrap();
    assert_eq!(names_of(&cols), vec!["id", "name"]);
}

#[test]
fn unknown_attribute_fails_and_yields_no_list() {
    let table = token_table(false);
    let request = AttributeNames::Select(vec!["name".to_string(), "bogus".to_string()]);
    let result = table.selected_columns(&request, None, false, false);
    match result {
        Err(StoreError::UnknownColumn(name)) => assert_eq!(name, "bogus"),
        _ => panic!("expected an UnknownColumn failure"),
    }
}

#[test]
fn all_keeps_declaration_order() {
    let table = token_table(false);
    let cols = table.selected_columns(&AttributeNames::All, None, false, false).unwrap();
    assert_eq!(names_of(&cols), vec!["id", "zeta", "alpha", "name", "flavor"]);
}

#[test]
fn internal_keys_add_typename_and_parent_id() {
    let table = token_table(false);
    let request = AttributeNames::Select(vec!["name".to_string()]);
    let cols = table
        .selected_columns(&request, Some(IdType::Bytes), true, false)
        .unwrap();
    assert_eq!(names_of(&cols), vec!["__typename", "id", "name", "g$parent_id"]);
}

#[test]
fn system_columns_end_with_vid_and_range() {
    let mutable = token_table(false);
    let request = AttributeNames::Select(vec!["name".to_string()]);
    let cols = mutable.selected_columns(&request, None, false, true).unwrap();
    assert_eq!(names_of(&cols), vec!["id", "name", "vid", "block_range"]);

    let immutable = token_table(true);
    let cols = immutable.selected_columns(&request, None, false, true).unwrap();
    assert_eq!(names_of(&cols), vec!["id", "name", "vid", "block"]);
}

#[test]
fn full_plan_orders_all_segments() {
    let table = token_table(false);
    let request = AttributeNames::Select(vec!["zeta".to_string(), "alpha".to_string()]);
    let cols = table
        .selected_columns(&request, Some(IdType::String), true, true)
        .unwrap();
    assert_eq!(
        names_of(&cols),
        vec!["__typename", "id", "alpha", "zeta", "g$parent_id", "vid", "block_range"]
    );
}

#[test]
fn assembler_preserves_planner_order() {
    let table = token_table(false);
    let request = AttributeNames::Select(vec!["zeta".to_string(), "alpha".to_string()]);
    let cols = table.selected_columns(&request, None, false, false).unwrap();
    let entries = table.select_cols(&cols);
    assert_eq!(entries.len(), cols.len());
    let sql = table.select_sql(&entries).inline_sql();
    assert_eq!(sql, "token.id, token.alpha, token.zeta");
}

#[test]
fn enum_column_renders_as_text_cast() {
    let table = token_table(false);
    let request = AttributeNames::Select(vec!["flavor".to_string()]);
    let cols = table.selected_columns(&request, None, false, false).unwrap();
    let entries = table.select_cols(&cols);
    assert!(matches!(&entries[1], SelectEntry::EnumCast { .. }));
    let sql = table.select_sql(&entries).inline_sql();
    assert_eq!(sql, "token.id, token.flavor::text");
    let (quoted, binds) = table.select_sql(&entries).sql();
    assert_eq!(quoted, "\"token\".\"id\", \"token\".\"flavor\"::text");
    assert!(binds.is_empty());
}

#[test]
fn full_statement_with_visibility_filter() {
    let table = token_table(false);
    let request = AttributeNames::Select(vec!["name".to_string()]);
    let cols = table.selected_columns(&request, None, false, false).unwrap();
    let entries = table.select_cols(&cols);
    let mut statement = table.select_statement(&entries);
    statement.push_sql(" where ");
    statement.append(table.at_block(100).render());
    let (sql, binds) = statement.sql();
    assert_eq!(
        sql,
        "select \"token\".\"id\", \"token\".\"name\" from \"sgd1\".\"token\" \
         where \"token\".\"block_range\" @> $1"
    );
    assert_eq!(binds.len(), 1);
}

#[test]
fn typename_literal_escapes_quotes() {
    let columns = vec![Column::new("id".to_string(), ColumnKind::String, false, false)];
    let table = Table::new(
        "sgd1".to_string(),
        "quirk".to_string(),
        "Qu'irk".to_string(),
        columns,
        0,
        false,
        false,
        false,
    );
    let cols = table
        .selected_columns(&AttributeNames::Select(vec![]), None, true, false)
        .unwrap();
    let entries = table.select_cols(&cols);
    let sql = table.select_sql(&entries).inline_sql();
    assert_eq!(sql, "'Qu''irk' as __typename, quirk.id");
}

#[test]
fn typename_column_renders_entity_literal() {
    let table = token_table(false);
    let cols = table
        .selected_columns(&AttributeNames::Select(vec![]), None, true, false)
        .unwrap();
    let entries = table.select_cols(&cols);
    assert!(matches!(&entries[0], SelectEntry::TypenameLiteral { entity } if entity == "Token"));
    let sql = table.select_sql(&entries).inline_sql();
    assert_eq!(sql, "'Token' as __typename, token.id");
}
