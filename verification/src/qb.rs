//! Trusted boundary to diesel's PostgreSQL query builder, the accumulator
//! this library renders its fragments into. The builder's state is modelled
//! by two names: the SQL text gathered so far and the number of bind
//! parameters pushed so far.

use vstd::prelude::*;
use diesel::query_builder::QueryBuilder;
use crate::text::{dec_digits, quote_ident};

verus! {

#[verifier::external_type_specification]
#[verifier::external_body]
pub struct ExPgQueryBuilder(diesel::pg::PgQueryBuilder);

/// The SQL text a builder has accumulated so far.
pub uninterp spec fn builder_sql(qb: diesel::pg::PgQueryBuilder) -> Seq<char>;

/// The number of bind parameters a builder has counted so far.
pub uninterp spec fn builder_binds(qb: diesel::pg::PgQueryBuilder) -> int;

/// Relies on `PgQueryBuilder::new`: constructs a builder with an empty query
/// and no bind parameters.
#[verifier::external_body]
pub(crate) fn builder_new() -> (qb: diesel::pg::PgQueryBuilder)
    ensures
        builder_sql(qb) == Seq::<char>::empty(),
        builder_binds(qb) == 0,
{
    diesel::pg::PgQueryBuilder::new()
}

/// Relies on `PgQueryBuilder::push_sql`: appends the given text to the query
/// exactly as it stands.
#[verifier::external_body]
pub(crate) fn builder_push_sql(qb: &mut diesel::pg::PgQueryBuilder, sql: &str)
    ensures
        builder_sql(*final(qb)) == builder_sql(*old(qb)) + sql@,
        builder_binds(*final(qb)) == builder_binds(*old(qb)),
{
    qb.push_sql(sql);
}

/// Relies on `PgQueryBuilder::push_identifier`: appends the identifier
/// wrapped in double quotes, with inner double quotes doubled, and always
/// returns `Ok`.
#[verifier::external_body]
pub(crate) fn builder_push_identifier(qb: &mut diesel::pg::PgQueryBuilder, ident: &str)
    ensures
        builder_sql(*final(qb)) == builder_sql(*old(qb)) + quote_ident(ident@),
        builder_binds(*final(qb)) == builder_binds(*old(qb)),
{
    let _ = qb.push_identifier(ident);
}

/// Relies on `PgQueryBuilder::push_bind_param`: counts one more bind
/// parameter and appends its `$n` placeholder, numbered from 1.
#[verifier::external_body]
pub(crate) fn builder_push_bind_param(qb: &mut diesel::pg::PgQueryBuilder)
    requires
        builder_binds(*old(qb)) < u32::MAX,
    ensures
        builder_binds(*final(qb)) == builder_binds(*old(qb)) + 1,
        builder_sql(*final(qb)) == builder_sql(*old(qb)) + seq!['$'] + dec_digits(
            builder_binds(*old(qb)) + 1,
        ),
{
    qb.push_bind_param();
}

/// Relies on `PgQueryBuilder::finish`: hands back the accumulated SQL text.
#[verifier::external_body]
pub(crate) fn builder_finish(qb: diesel::pg::PgQueryBuilder) -> (sql: String)
    ensures
        sql@ == builder_sql(qb),
{
    qb.finish()
}

} // verus!
