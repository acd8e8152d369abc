//! The three composable boolean predicate builders: identity equality,
//! point-in-time visibility and causality-region membership. Each renders to
//! a [`SqlFragment`] whose pieces are pinned exactly by its contract, and
//! each carries a spec-level evaluation giving the rendered predicate's truth
//! value on one row, with lemmas relating that value to the versioning model.

use vstd::prelude::*;
use crate::fragment::{inline_text, AtomV, BindV, BindValue, SqlFragment};
use crate::table::{id_v_type, Id, IdV, Table};
use crate::{BlockNumber, CausalityRegion, BLOCK_NUMBER_MAX};

verus! {

/// The bind parameter carrying an entity id, typed after its variant.
pub open spec fn id_bind_v(id: IdV) -> BindV {
    match id {
        IdV::String(s) => BindV::Text(s),
        IdV::Bytes(b) => BindV::Binary(b),
        IdV::Int8(i) => BindV::BigInt(i),
    }
}

/// Renders `<table>.id = $id`, binding the id with the wire type matching
/// its variant. The variant must agree with the table's declared id kind;
/// that is the caller's obligation, enforced at construction time.
pub struct IdEq<'a> {
    pub table: &'a Table,
    pub id: &'a Id,
}

impl<'a> IdEq<'a> {
    /// An identity filter for `table`, comparing against `id`.
    pub fn new(table: &'a Table, id: &'a Id) -> (r: IdEq<'a>)
        requires
            table@.wf(),
            id_v_type(id@) == table@.id_kind(),
        ensures
            r.table == table,
            r.id == id,
    {
        IdEq { table, id }
    }

    /// The pieces this predicate renders to.
    pub open spec fn atoms(self) -> Seq<AtomV> {
        seq![
            AtomV::Ident(self.table@.name),
            AtomV::Sql(".id = "@),
            AtomV::Bind(id_bind_v(self.id@)),
        ]
    }

    /// The truth value of the rendered predicate on a row holding `row_id`.
    pub open spec fn eval(self, row_id: IdV) -> bool {
        row_id == self.id@
    }

    /// Render the predicate.
    pub fn render(&self) -> (r: SqlFragment)
        ensures
            r@ == self.atoms(),
    {
        let mut f = SqlFragment::new();
        f.push_ident(self.table.name.as_str());
        f.push_sql(".id = ");
        let bind = match self.id {
            Id::String(s) => BindValue::Text(s.clone()),
            Id::Bytes(b) => BindValue::Binary(crate::fragment::clone_bytes(b)),
            Id::Int8(i) => BindValue::BigInt(*i),
        };
        f.push_bind(bind);
        proof {
            assert(f@ =~= self.atoms());
        }
        f
    }
}

/// Whether a mutable-table row whose validity interval is `[lower, upper)`
/// is visible at `block`; an interval without an upper end is unbounded.
pub open spec fn range_contains(lower: int, upper: Option<int>, block: int) -> bool {
    lower <= block && (match upper {
        Some(u) => block < u,
        None => true,
    })
}

/// The upper end of a validity interval, coalesced to the unbounded sentinel
/// when the interval has none.
pub open spec fn coalesced_upper(upper: Option<int>) -> int {
    match upper {
        Some(u) => u,
        None => BLOCK_NUMBER_MAX as int,
    }
}

/// The two redundant planner-hint conjuncts appended for append-heavy
/// tables: `coalesce(upper(range), BLOCK_NUMBER_MAX) > block` and
/// `lower(range) <= block`.
pub open spec fn hint_conjuncts_hold(lower: int, upper: Option<int>, block: int) -> bool {
    coalesced_upper(upper) > block && lower <= block
}

/// Renders the point-in-time visibility predicate: `<version-column> <=
/// $block` on an immutable table (constant `true` at the unbounded
/// sentinel), `<range-column> @> $block` on a mutable one, with two
/// redundant index-steering conjuncts appended for append-heavy tables.
pub struct AtBlock<'a> {
    pub table: &'a Table,
    pub block: BlockNumber,
    pub filters_by_id: bool,
    pub hint_override: bool,
}

impl<'a> AtBlock<'a> {
    /// A visibility filter for `table` as of `block`, assuming no identity
    /// filter narrows the query and no override is in force.
    pub fn new(table: &'a Table, block: BlockNumber) -> (r: AtBlock<'a>)
        ensures
            r.table == table,
            r.block == block,
            !r.filters_by_id,
            !r.hint_override,
    {
        AtBlock { table, block, filters_by_id: false, hint_override: false }
    }

    /// Record that the surrounding query already narrows by an identity
    /// filter, which suppresses the planner-hint conjuncts: the ideal index
    /// is then the one over id and range.
    pub fn filters_by_id(self) -> (r: Self)
        ensures
            r.table == self.table,
            r.block == self.block,
            r.filters_by_id,
            r.hint_override == self.hint_override,
    {
        AtBlock { filters_by_id: true, ..self }
    }

    /// Force the planner-hint conjuncts even beside an identity filter.
    pub fn force_hints(self) -> (r: Self)
        ensures
            r.table == self.table,
            r.block == self.block,
            r.filters_by_id == self.filters_by_id,
            r.hint_override,
    {
        AtBlock { hint_override: true, ..self }
    }

    /// Whether the redundant planner-hint conjuncts are appended: the table
    /// is append-heavy, the block is finite, and no identity filter narrows
    /// the query (or an override forces them).
    pub open spec fn adds_hints(self) -> bool {
        &&& self.table@.likely_append_heavy
        &&& self.block < BLOCK_NUMBER_MAX
        &&& (!self.filters_by_id || self.hint_override)
    }

    /// The pieces this predicate renders to.
    pub open spec fn atoms(self) -> Seq<AtomV> {
        if self.table@.immutable {
            if self.block == BLOCK_NUMBER_MAX {
                seq![AtomV::Sql("true"@)]
            } else {
                seq![
                    AtomV::Ident(self.table@.name),
                    AtomV::Sql("."@),
                    AtomV::Ident("block"@),
                    AtomV::Sql(" <= "@),
                    AtomV::Bind(BindV::Integer(self.block as int)),
                ]
            }
        } else {
            let base = seq![
                AtomV::Ident(self.table@.name),
                AtomV::Sql("."@),
                AtomV::Ident("block_range"@),
                AtomV::Sql(" @> "@),
                AtomV::Bind(BindV::Integer(self.block as int)),
            ];
            if self.adds_hints() {
                base + seq![
                    AtomV::Sql(" and coalesce(upper("@),
                    AtomV::Ident(self.table@.name),
                    AtomV::Sql("."@),
                    AtomV::Ident("block_range"@),
                    AtomV::Sql("), 2147483647) > "@),
                    AtomV::Bind(BindV::Integer(self.block as int)),
                    AtomV::Sql(" and lower("@),
                    AtomV::Ident(self.table@.name),
                    AtomV::Sql("."@),
                    AtomV::Ident("block_range"@),
                    AtomV::Sql(") <= "@),
                    AtomV::Bind(BindV::Integer(self.block as int)),
                ]
            } else {
                base
            }
        }
    }

    /// The truth value of the rendered predicate on one row: on an immutable
    /// table the row is stamped with `version_block`, on a mutable one it
    /// carries the validity interval `[lower, upper)`.
    pub open spec fn eval(self, version_block: int, lower: int, upper: Option<int>) -> bool {
        if self.table@.immutable {
            if self.block == BLOCK_NUMBER_MAX {
                true
            } else {
                version_block <= self.block
            }
        } else {
            range_contains(lower, upper, self.block as int) && (self.adds_hints()
                ==> hint_conjuncts_hold(lower, upper, self.block as int))
        }
    }

    /// Render the predicate.
    pub fn render(&self) -> (r: SqlFragment)
        ensures
            r@ == self.atoms(),
    {
        let mut f = SqlFragment::new();
        if self.table.immutable {
            if self.block == BLOCK_NUMBER_MAX {
                f.push_sql("true");
            } else {
                f.push_ident(self.table.name.as_str());
                f.push_sql(".");
                f.push_ident("block");
                f.push_sql(" <= ");
                f.push_bind(BindValue::Integer(self.block));
            }
        } else {
            f.push_ident(self.table.name.as_str());
            f.push_sql(".");
            f.push_ident("block_range");
            f.push_sql(" @> ");
            f.push_bind(BindValue::Integer(self.block));
            let add_hints = self.table.likely_append_heavy && self.block < BLOCK_NUMBER_MAX && (
            !self.filters_by_id || self.hint_override);
            if add_hints {
                f.push_sql(" and coalesce(upper(");
                f.push_ident(self.table.name.as_str());
                f.push_sql(".");
                f.push_ident("block_range");
                f.push_sql("), 2147483647) > ");
                f.push_bind(BindValue::Integer(self.block));
                f.push_sql(" and lower(");
                f.push_ident(self.table.name.as_str());
                f.push_sql(".");
                f.push_ident("block_range");
                f.push_sql(") <= ");
                f.push_bind(BindValue::Integer(self.block));
            }
        }
        proof {
            assert(f@ =~= self.atoms());
        }
        f
    }
}

/// At the unbounded sentinel an immutable table's visibility predicate
/// renders the constant `true`: every row is visible without cost.
pub proof fn lemma_at_block_immutable_latest(at: AtBlock)
    requires
        at.table@.immutable,
        at.block == BLOCK_NUMBER_MAX,
    ensures
        at.atoms() == seq![AtomV::Sql("true"@)],
        inline_text(at.atoms()) == "true"@,
{
    let atoms = at.atoms();
    reveal_with_fuel(inline_text, 2);
    assert(atoms.drop_last() =~= Seq::<AtomV>::empty());
    assert(Seq::<char>::empty() + "true"@ =~= "true"@);
}

/// On an immutable table the rendered visibility predicate holds of a row
/// exactly when the row's version stamp is at or before the requested block,
/// also through the constant-true shortcut at the unbounded sentinel.
pub proof fn lemma_at_block_immutable(
    at: AtBlock,
    version_block: int,
    lower: int,
    upper: Option<int>,
)
    requires
        at.table@.immutable,
        version_block <= BLOCK_NUMBER_MAX,
    ensures
        at.eval(version_block, lower, upper) == (version_block <= at.block),
{
}

/// On a mutable table the rendered visibility predicate holds of a row
/// exactly when the row's validity interval contains the requested block,
/// whether or not the planner-hint conjuncts are appended: containment
/// implies the hints whenever they are rendered, so appending them never
/// changes the predicate's truth value.
pub proof fn lemma_at_block_range(at: AtBlock, version_block: int, lower: int, upper: Option<int>)
    requires
        !at.table@.immutable,
    ensures
        at.eval(version_block, lower, upper) == range_contains(lower, upper, at.block as int),
{
    if at.adds_hints() && range_contains(lower, upper, at.block as int) {
        assert(at.block < BLOCK_NUMBER_MAX);
        assert(hint_conjuncts_hold(lower, upper, at.block as int));
    }
}

/// Renders `<table>.causality_region = $cr` when the table supports
/// causality regions, and the constant `true` when it does not.
pub struct BelongsToCausalityRegion<'a> {
    pub table: &'a Table,
    pub cr: CausalityRegion,
}

impl<'a> BelongsToCausalityRegion<'a> {
    /// A causality-region filter for `table`.
    pub fn new(table: &'a Table, cr: CausalityRegion) -> (r: BelongsToCausalityRegion<'a>)
        ensures
            r.table == table,
            r.cr == cr,
    {
        BelongsToCausalityRegion { table, cr }
    }

    /// The pieces this predicate renders to.
    pub open spec fn atoms(self) -> Seq<AtomV> {
        if self.table@.supports_causality_region {
            seq![
                AtomV::Ident(self.table@.name),
                AtomV::Sql(".causality_region = "@),
                AtomV::Bind(BindV::Integer(self.cr as int)),
            ]
        } else {
            seq![AtomV::Sql("true"@)]
        }
    }

    /// The truth value of the rendered predicate on a row written under
    /// `row_region`.
    pub open spec fn eval(self, row_region: int) -> bool {
        if self.table@.supports_causality_region {
            row_region == self.cr as int
        } else {
            true
        }
    }

    /// Render the predicate.
    pub fn render(&self) -> (r: SqlFragment)
        ensures
            r@ == self.atoms(),
    {
        let mut f = SqlFragment::new();
        if self.table.supports_causality_region {
            f.push_ident(self.table.name.as_str());
            f.push_sql(".causality_region = ");
            f.push_bind(BindValue::Integer(self.cr));
        } else {
            f.push_sql("true");
        }
        proof {
            assert(f@ =~= self.atoms());
        }
        f
    }
}

/// On a table without causality support the membership predicate renders
/// the constant `true` and holds of every row, whatever region either side
/// names: causality filtering is a no-op there.
pub proof fn lemma_causality_no_support(bc: BelongsToCausalityRegion, row_region: int)
    requires
        !bc.table@.supports_causality_region,
    ensures
        bc.atoms() == seq![AtomV::Sql("true"@)],
        bc.eval(row_region),
{
}

impl Table {
    /// A filter rendering `<table>.id = $id`. The id's variant must match
    /// the table's declared id kind.
    pub fn id_eq<'a>(&'a self, id: &'a Id) -> (r: IdEq<'a>)
        requires
            self@.wf(),
            id_v_type(id@) == self@.id_kind(),
        ensures
            r.table == self,
            r.id == id,
    {
        IdEq::new(self, id)
    }

    /// A filter rendering the point-in-time visibility predicate for this
    /// table as of `block`.
    pub fn at_block(&self, block: BlockNumber) -> (r: AtBlock<'_>)
        ensures
            r.table == self,
            r.block == block,
            !r.filters_by_id,
            !r.hint_override,
    {
        AtBlock::new(self, block)
    }

    /// A filter rendering the causality-region membership predicate for
    /// this table.
    pub fn belongs_to_causality_region(&self, cr: CausalityRegion) -> (r: BelongsToCausalityRegion<
        '_,
    >)
        ensures
            r.table == self,
            r.cr == cr,
    {
        BelongsToCausalityRegion::new(self, cr)
    }
}

} // verus!
