//! The select-clause assembler: turns the planner's column list, unchanged
//! and in order, into a typed select list. The synthetic type-name column
//! becomes a quoted string literal, an enum column a text cast, and every
//! other column a typed column reference through the scalar dispatcher.

use vstd::prelude::*;
use crate::fragment::{AtomV, SqlFragment};
use crate::scalar::{kind_scalar_type, spec_wrapping, wrapping, ScalarType, Wrapping};
use crate::table::{Column, ColumnV, Table, TableV};
use crate::text::{escape_squotes, escaped_squotes_string, str_eq};

verus! {

/// A placeholder expression, used where an expression is syntactically
/// required but nothing is ever rendered from it.
#[derive(Debug)]
pub struct DummyExpression;

impl DummyExpression {
    /// The placeholder expression.
    pub fn new() -> DummyExpression {
        DummyExpression
    }
}

/// One typed entry of a select list.
#[derive(Debug)]
pub enum SelectEntry {
    /// A quoted string literal holding the table's entity type name, aliased
    /// as the type-name column.
    TypenameLiteral { entity: String },
    /// A raw `::text` cast of an enum column: the concrete database enum
    /// type name is not known to the generic dispatcher.
    EnumCast { column: Column, wrapping: Wrapping },
    /// A typed, bindable column reference.
    TypedColumn { column: Column, scalar: ScalarType, wrapping: Wrapping },
}

/// The mathematical value of a select-list entry.
pub enum SelectEntryV {
    TypenameLiteral { entity: Seq<char> },
    EnumCast { column: ColumnV, wrapping: Wrapping },
    TypedColumn { column: ColumnV, scalar: ScalarType, wrapping: Wrapping },
}

impl View for SelectEntry {
    type V = SelectEntryV;

    open spec fn view(&self) -> SelectEntryV {
        match self {
            SelectEntry::TypenameLiteral { entity } => SelectEntryV::TypenameLiteral {
                entity: entity@,
            },
            SelectEntry::EnumCast { column, wrapping } => SelectEntryV::EnumCast {
                column: column@,
                wrapping: *wrapping,
            },
            SelectEntry::TypedColumn { column, scalar, wrapping } => SelectEntryV::TypedColumn {
                column: column@,
                scalar: *scalar,
                wrapping: *wrapping,
            },
        }
    }
}

impl DeepView for SelectEntry {
    type V = SelectEntryV;

    open spec fn deep_view(&self) -> SelectEntryV {
        self.view()
    }
}

/// How one planned column is assembled: the type-name pseudo-column becomes
/// the entity-name literal, a column the dispatcher knows becomes a typed
/// reference with the matching wrapper, and an enum column a text cast.
pub open spec fn assemble_entry(t: TableV, c: ColumnV) -> SelectEntryV {
    if c.name == "__typename"@ {
        SelectEntryV::TypenameLiteral { entity: t.entity_typename }
    } else {
        match kind_scalar_type(c.kind) {
            Some(st) => SelectEntryV::TypedColumn {
                column: c,
                scalar: st,
                wrapping: spec_wrapping(c.is_list, c.is_nullable),
            },
            None => SelectEntryV::EnumCast {
                column: c,
                wrapping: spec_wrapping(c.is_list, c.is_nullable),
            },
        }
    }
}

/// An enum-kind column is always assembled as a text cast, never as a typed
/// bound column reference.
pub proof fn lemma_enum_renders_cast(t: TableV, c: ColumnV)
    requires
        c.kind is Enum,
        c.name != "__typename"@,
    ensures
        assemble_entry(t, c) is EnumCast,
{
}

/// The pieces one select-list entry renders to, columns qualified by the
/// table name.
pub open spec fn entry_atoms(tname: Seq<char>, e: SelectEntryV) -> Seq<AtomV> {
    match e {
        SelectEntryV::TypenameLiteral { entity } => seq![
            AtomV::Sql("'"@),
            AtomV::Sql(escape_squotes(entity)),
            AtomV::Sql("' as __typename"@),
        ],
        SelectEntryV::EnumCast { column, .. } => seq![
            AtomV::Ident(tname),
            AtomV::Sql("."@),
            AtomV::Ident(column.name),
            AtomV::Sql("::text"@),
        ],
        SelectEntryV::TypedColumn { column, .. } => seq![
            AtomV::Ident(tname),
            AtomV::Sql("."@),
            AtomV::Ident(column.name),
        ],
    }
}

/// The pieces a whole select list renders to: the entries in order,
/// separated by commas.
pub open spec fn select_atoms(tname: Seq<char>, entries: Seq<SelectEntryV>) -> Seq<AtomV>
    decreases entries.len(),
{
    if entries.len() == 0 {
        Seq::<AtomV>::empty()
    } else if entries.len() == 1 {
        entry_atoms(tname, entries[0])
    } else {
        select_atoms(tname, entries.drop_last()) + seq![AtomV::Sql(", "@)] + entry_atoms(
            tname,
            entries.last(),
        )
    }
}

impl Table {
    /// Assemble the planner's column list, unchanged and in order, into one
    /// typed select-list entry per column.
    pub fn select_cols(&self, columns: &Vec<Column>) -> (r: Vec<SelectEntry>)
        ensures
            r.deep_view().len() == columns.deep_view().len(),
            forall|i: int|
                0 <= i < columns.deep_view().len() ==> r.deep_view()[i] == assemble_entry(
                    self@,
                    #[trigger] columns.deep_view()[i],
                ),
    {
        let mut entries: Vec<SelectEntry> = Vec::new();
        let n = columns.len();
        let mut i: usize = 0;
        while i < n
            invariant
                i <= n,
                n == columns@.len(),
                entries.deep_view().len() == i,
                forall|k: int|
                    0 <= k < i ==> entries.deep_view()[k] == assemble_entry(
                        self@,
                        #[trigger] columns.deep_view()[k],
                    ),
            decreases n - i,
        {
            let ghost ed0 = entries.deep_view();
            let c = &columns[i];
            let entry = if str_eq(c.name.as_str(), "__typename") {
                SelectEntry::TypenameLiteral { entity: self.entity_typename.clone() }
            } else {
                match c.kind.scalar_type() {
                    Some(st) => SelectEntry::TypedColumn {
                        column: c.cloned(),
                        scalar: st,
                        wrapping: wrapping(c.is_list, c.is_nullable),
                    },
                    None => SelectEntry::EnumCast {
                        column: c.cloned(),
                        wrapping: wrapping(c.is_list, c.is_nullable),
                    },
                }
            };
            let ghost ev = entry@;
            entries.push(entry);
            proof {
                assert(columns.deep_view()[i as int] == columns@[i as int]@);
                assert(ev == assemble_entry(self@, columns.deep_view()[i as int]));
                assert(entries.deep_view() =~= ed0.push(ev));
            }
            i = i + 1;
        }
        entries
    }

    /// Render a select list, preserving the entries' order: one rendered
    /// entry per planned column, separated by commas.
    pub fn select_sql(&self, entries: &Vec<SelectEntry>) -> (r: SqlFragment)
        ensures
            r@ == select_atoms(self@.name, entries.deep_view()),
    {
        let ghost ed = entries.deep_view();
        let mut f = SqlFragment::new();
        let n = entries.len();
        proof {
            assert(ed.take(0) =~= Seq::<SelectEntryV>::empty());
        }
        let mut i: usize = 0;
        while i < n
            invariant
                i <= n,
                n == entries@.len(),
                n == ed.len(),
                ed == entries.deep_view(),
                f@ == select_atoms(self@.name, ed.take(i as int)),
            decreases n - i,
        {
            let ghost f0 = f@;
            if i > 0 {
                f.push_sql(", ");
            }
            match &entries[i] {
                SelectEntry::TypenameLiteral { entity } => {
                    f.push_sql("'");
                    let escaped = escaped_squotes_string(entity.as_str());
                    f.push_sql(escaped.as_str());
                    f.push_sql("' as __typename");
                },
                SelectEntry::EnumCast { column, .. } => {
                    f.push_ident(self.name.as_str());
                    f.push_sql(".");
                    f.push_ident(column.name.as_str());
                    f.push_sql("::text");
                },
                SelectEntry::TypedColumn { column, .. } => {
                    f.push_ident(self.name.as_str());
                    f.push_sql(".");
                    f.push_ident(column.name.as_str());
                },
            }
            proof {
                assert(ed[i as int] == entries@[i as int]@);
                let sep: Seq<AtomV> = if i > 0 {
                    seq![AtomV::Sql(", "@)]
                } else {
                    Seq::<AtomV>::empty()
                };
                assert(f@ =~= f0 + sep + entry_atoms(self@.name, ed[i as int]));
                assert(ed.take(i + 1 as int).drop_last() =~= ed.take(i as int));
                assert(ed.take(i + 1 as int).last() == ed[i as int]);
                if i == 0 {
                    assert(f0 =~= Seq::<AtomV>::empty());
                    assert(f@ =~= entry_atoms(self@.name, ed[0]));
                }
                assert(f@ =~= select_atoms(self@.name, ed.take(i + 1 as int)));
            }
            i = i + 1;
        }
        proof {
            assert(ed.take(n as int) =~= ed);
        }
        f
    }

    /// The full select statement for a planned list: the typed select list,
    /// in the planner's order, over the FROM target naming this table.
    pub fn select_statement(&self, entries: &Vec<SelectEntry>) -> (r: SqlFragment)
        ensures
            r@ == seq![AtomV::Sql("select "@)] + select_atoms(self@.name, entries.deep_view())
                + seq![
                AtomV::Sql(" from "@),
                AtomV::Ident(self@.namespace),
                AtomV::Sql("."@),
                AtomV::Ident(self@.name),
            ],
    {
        let mut f = SqlFragment::new();
        f.push_sql("select ");
        f.append(self.select_sql(entries));
        f.push_sql(" from ");
        f.push_ident(self.namespace.as_str());
        f.push_sql(".");
        f.push_ident(self.name.as_str());
        proof {
            assert(f@ =~= seq![AtomV::Sql("select "@)] + select_atoms(
                self@.name,
                entries.deep_view(),
            ) + seq![
                AtomV::Sql(" from "@),
                AtomV::Ident(self@.namespace),
                AtomV::Sql("."@),
                AtomV::Ident(self@.name),
            ]);
        }
        f
    }
}

} // verus!
