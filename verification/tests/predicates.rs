use relational_dsl::fragment::BindValue;
use relational_dsl::predicates::{AtBlock, BelongsToCausalityRegion, IdEq};
use relational_dsl::scalar::ColumnKind;
use relational_dsl::table::{Column, Id, Table};
use relational_dsl::BLOCK_NUMBER_MAX;

fn token_table(immutable: bool, append_heavy: bool, causality: bool) -> Table {
    let columns = vec![
        Column::new("id".to_string(), ColumnKind::String, false, false),
        Column::new("name".to_string(), ColumnKind::String, false, false),
        Column::new("amount".to_string(), ColumnKind::BigInt, false, true),
    ];
    Table::new(
        "sgd1".to_string(),
        "token".to_string(),
        "Token".to_string(),
        columns,
        0,
        immutable,
        causality,
        append_heavy,
    )
}

fn block_table() -> Table {
    let columns = vec![Column::new("id".to_string(), ColumnKind::Bytes, false, false)];
    Table::new(
        "sgd1".to_string(),
        "block".to_string(),
        "Block".to_string(),
        columns,
        0,
        true,
        false,
        false,
    )
}

#[test]
fn immutable_at_block_max_renders_true() {
    let table = block_table();
    let fragment = AtBlock::new(&table, BLOCK_NUMBER_MAX).render();
    assert_eq!(fragment.inline_sql(), "true");
    let (sql, binds) = fragment.sql();
    assert_eq!(sql, "true");
    assert!(binds.is_empty());
}

#[test]
fn immutable_at_block_renders_version_bound() {
    let table = block_table();
    let fragment = table.at_block(100).render();
    assert_eq!(fragment.inline_sql(), "block.block <= 100");
    let (sql, binds) = fragment.sql();
    assert_eq!(sql, "\"block\".\"block\" <= $1");
    assert_eq!(binds.len(), 1);
    assert!(matches!(binds[0], BindValue::Integer(100)));
}

#[test]
fn mutable_at_block_appends_planner_hints() {
    let table = token_table(false, true, false);
    let fragment = table.at_block(100).render();
    assert_eq!(
        fragment.inline_sql(),
        "token.block_range @> 100 and coalesce(upper(token.block_range), 2147483647) > 100 \
         and lower(token.block_range) <= 100"
    );
    let (sql, binds) = fragment.sql();
    assert_eq!(
        sql,
        "\"token\".\"block_range\" @> $1 and coalesce(upper(\"token\".\"block_range\"), \
         2147483647) > $2 and lower(\"token\".\"block_range\") <= $3"
    );
    assert_eq!(binds.len(), 3);
    for bind in &binds {
        assert!(matches!(bind, BindValue::Integer(100)));
    }
}

#[test]
fn mutable_at_block_with_id_filter_suppresses_hints() {
    let table = token_table(false, true, false);
    let fragment = table.at_block(100).filters_by_id().render();
    assert_eq!(fragment.inline_sql(), "token.block_range @> 100");
}

#[test]
fn mutable_at_block_override_forces_hints() {
    let table = token_table(false, true, false);
    let fragment = table.at_block(100).filters_by_id().force_hints().render();
    assert_eq!(
        fragment.inline_sql(),
        "token.block_range @> 100 and coalesce(upper(token.block_range), 2147483647) > 100 \
         and lower(token.block_range) <= 100"
    );
}

#[test]
fn mutable_at_block_max_never_adds_hints() {
    let table = token_table(false, true, false);
    let fragment = table.at_block(BLOCK_NUMBER_MAX).render();
    assert_eq!(fragment.inline_sql(), "token.block_range @> 2147483647");
}

#[test]
fn mutable_at_block_quiet_table_adds_no_hints() {
    let table = token_table(false, false, false);
    let fragment = table.at_block(100).render();
    assert_eq!(fragment.inline_sql(), "token.block_range @> 100");
}

#[test]
fn causality_region_without_support_renders_true() {
    let table = token_table(false, true, false);
    for region in [0, 7, -3, i32::MAX] {
        let fragment = table.belongs_to_causality_region(region).render();
        assert_eq!(fragment.inline_sql(), "true");
        let (sql, binds) = fragment.sql();
        assert_eq!(sql, "true");
        assert!(binds.is_empty());
    }
}

#[test]
fn causality_region_with_support_renders_comparison() {
    let table = token_table(false, true, true);
    let fragment = BelongsToCausalityRegion::new(&table, 7).render();
    assert_eq!(fragment.inline_sql(), "token.causality_region = 7");
    let (sql, binds) = fragment.sql();
    assert_eq!(sql, "\"token\".causality_region = $1");
    assert_eq!(binds.len(), 1);
    assert!(matches!(binds[0], BindValue::Integer(7)));
}

#[test]
fn id_eq_renders_text_bind() {
    let table = token_table(false, true, false);
    let id = Id::String("abc".to_string());
    let fragment = table.id_eq(&id).render();
    assert_eq!(fragment.inline_sql(), "token.id = 'abc'");
    let (sql, binds) = fragment.sql();
    assert_eq!(sql, "\"token\".id = $1");
    assert_eq!(binds.len(), 1);
    assert!(matches!(&binds[0], BindValue::Text(s) if s == "abc"));
}

#[test]
fn id_eq_inline_escapes_quotes() {
    let table = token_table(false, true, false);
    let id = Id::String("a'b".to_string());
    let fragment = IdEq::new(&table, &id).render();
    assert_eq!(fragment.inline_sql(), "token.id = 'a''b'");
}

#[test]
fn id_eq_renders_binary_bind() {
    let columns = vec![Column::new("id".to_string(), ColumnKind::Bytes, false, false)];
    let table = Table::new(
        "sgd1".to_string(),
        "account".to_string(),
        "Account".to_string(),
        columns,
        0,
        false,
        false,
        false,
    );
    let id = Id::Bytes(vec![0xde, 0xad, 0xbe, 0xef]);
    let fragment = table.id_eq(&id).render();
    assert_eq!(fragment.inline_sql(), "account.id = '\\xdeadbeef'");
    let (_, binds) = fragment.sql();
    assert!(matches!(&binds[0], BindValue::Binary(b) if b == &vec![0xde, 0xad, 0xbe, 0xef]));
}

#[test]
fn id_eq_renders_big_int_bind() {
    let columns = vec![Column::new("id".to_string(), ColumnKind::Int8, false, false)];
    let table = Table::new(
        "sgd1".to_string(),
        "tally".to_string(),
        "Tally".to_string(),
        columns,
        0,
        false,
        false,
        false,
    );
    let id = Id::Int8(-42);
    let fragment = table.id_eq(&id).render();
    assert_eq!(fragment.inline_sql(), "tally.id = -42");
    let (_, binds) = fragment.sql();
    assert!(matches!(binds[0], BindValue::BigInt(-42)));
}

#[test]
fn quoted_identifiers_double_inner_quotes() {
    let columns = vec![Column::new("id".to_string(), ColumnKind::String, false, false)];
    let table = Table::new(
        "sgd1".to_string(),
        "we\"ird".to_string(),
        "Weird".to_string(),
        columns,
        0,
        false,
        false,
        false,
    );
    let (sql, _) = table.from_clause().sql();
    assert_eq!(sql, "\"sgd1\".\"we\"\"ird\"");
}

#[test]
fn from_clause_names_namespace_and_table() {
    let table = token_table(false, true, false);
    let fragment = table.from_clause();
    assert_eq!(fragment.inline_sql(), "sgd1.token");
    let (sql, binds) = fragment.sql();
    assert_eq!(sql, "\"sgd1\".\"token\"");
    assert!(binds.is_empty());
}
