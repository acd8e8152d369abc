//! Table and column descriptors: the schema metadata this library works
//! over. Descriptors are built once when the schema is loaded and shared
//! read-only; nothing here mutates them afterwards.

use vstd::prelude::*;
use vstd::string::StringExecFns;
use crate::fragment::{AtomV, SqlFragment};
use crate::scalar::{ColumnKind, ColumnKindV};
use crate::text::str_eq;

verus! {

/// One column of a table: a name, a scalar kind and the orthogonal list and
/// nullable flags.
#[derive(Debug)]
pub struct Column {
    pub name: String,
    pub kind: ColumnKind,
    pub is_list: bool,
    pub is_nullable: bool,
}

/// The mathematical value of a column.
pub struct ColumnV {
    pub name: Seq<char>,
    pub kind: ColumnKindV,
    pub is_list: bool,
    pub is_nullable: bool,
}

impl View for Column {
    type V = ColumnV;

    open spec fn view(&self) -> ColumnV {
        ColumnV {
            name: self.name@,
            kind: self.kind@,
            is_list: self.is_list,
            is_nullable: self.is_nullable,
        }
    }
}

impl DeepView for Column {
    type V = ColumnV;

    open spec fn deep_view(&self) -> ColumnV {
        self.view()
    }
}

impl Column {
    /// A column with the given name, kind and flags.
    pub fn new(name: String, kind: ColumnKind, is_list: bool, is_nullable: bool) -> (c: Column)
        ensures
            c@ == (ColumnV { name: name@, kind: kind@, is_list, is_nullable }),
    {
        Column { name, kind, is_list, is_nullable }
    }

    /// A copy with the same mathematical value.
    pub fn cloned(&self) -> (c: Column)
        ensures
            c@ == self@,
    {
        Column {
            name: self.name.clone(),
            kind: self.kind.cloned(),
            is_list: self.is_list,
            is_nullable: self.is_nullable,
        }
    }
}

/// The synthetic type-name pseudo-column, projected as a quoted string
/// literal so that rows of unioned tables can be told apart.
pub open spec fn typename_col_v() -> ColumnV {
    ColumnV { name: "__typename"@, kind: ColumnKindV::String, is_list: false, is_nullable: false }
}

/// The version/serial pseudo-column stamped on every row.
pub open spec fn vid_col_v() -> ColumnV {
    ColumnV { name: "vid"@, kind: ColumnKindV::Int8, is_list: false, is_nullable: false }
}

/// The single-version column of an immutable table: the block at which the
/// row was written.
pub open spec fn block_col_v() -> ColumnV {
    ColumnV { name: "block"@, kind: ColumnKindV::Int8, is_list: false, is_nullable: false }
}

/// The range column of a mutable table. The kind is a placeholder: the
/// half-open block range is never decoded through the scalar dispatcher.
pub open spec fn block_range_col_v() -> ColumnV {
    ColumnV { name: "block_range"@, kind: ColumnKindV::Bytes, is_list: false, is_nullable: false }
}

/// The parent-id pseudo-column whose physical kind matches the parent
/// table's id kind, projected when child rows are joined back to a parent.
pub open spec fn parent_col_v(parent: IdType) -> ColumnV {
    ColumnV {
        name: "g$parent_id"@,
        kind: match parent {
            IdType::String => ColumnKindV::String,
            IdType::Bytes => ColumnKindV::Bytes,
            IdType::Int8 => ColumnKindV::Int8,
        },
        is_list: false,
        is_nullable: false,
    }
}

/// The synthetic type-name pseudo-column.
pub fn typename_column() -> (c: Column)
    ensures
        c@ == typename_col_v(),
{
    Column::new(String::from_str("__typename"), ColumnKind::String, false, false)
}

/// The version/serial pseudo-column.
pub fn vid_column() -> (c: Column)
    ensures
        c@ == vid_col_v(),
{
    Column::new(String::from_str("vid"), ColumnKind::Int8, false, false)
}

/// The single-version column of an immutable table.
pub fn block_column() -> (c: Column)
    ensures
        c@ == block_col_v(),
{
    Column::new(String::from_str("block"), ColumnKind::Int8, false, false)
}

/// The range column of a mutable table.
pub fn block_range_column() -> (c: Column)
    ensures
        c@ == block_range_col_v(),
{
    Column::new(String::from_str("block_range"), ColumnKind::Bytes, false, false)
}

/// The parent-id pseudo-column for the given parent id kind.
pub fn parent_column(parent: IdType) -> (c: Column)
    ensures
        c@ == parent_col_v(parent),
{
    let kind = match parent {
        IdType::String => ColumnKind::String,
        IdType::Bytes => ColumnKind::Bytes,
        IdType::Int8 => ColumnKind::Int8,
    };
    Column::new(String::from_str("g$parent_id"), kind, false, false)
}

/// The physical representation an entity id can take.
#[derive(Debug, Clone, Copy, PartialEq, Eq, Structural)]
pub enum IdType {
    String,
    Bytes,
    Int8,
}

/// An entity identifier. Its variant must match the owning table's declared
/// id kind.
#[derive(Debug)]
pub enum Id {
    String(String),
    Bytes(Vec<u8>),
    Int8(i64),
}

/// The mathematical value of an entity identifier.
pub enum IdV {
    String(Seq<char>),
    Bytes(Seq<u8>),
    Int8(int),
}

impl View for Id {
    type V = IdV;

    open spec fn view(&self) -> IdV {
        match self {
            Id::String(s) => IdV::String(s@),
            Id::Bytes(b) => IdV::Bytes(b@),
            Id::Int8(i) => IdV::Int8(*i as int),
        }
    }
}

/// The id kind an identifier value belongs to.
pub open spec fn id_v_type(v: IdV) -> IdType {
    match v {
        IdV::String(_) => IdType::String,
        IdV::Bytes(_) => IdType::Bytes,
        IdV::Int8(_) => IdType::Int8,
    }
}

/// A failure while building a query. Lookup failures abort construction at
/// once: no partial fragment is ever handed on.
#[derive(Debug)]
pub enum StoreError {
    /// A requested attribute name resolves to no declared column.
    UnknownColumn(String),
}

/// The mathematical value of a query-building failure.
pub enum StoreErrorV {
    UnknownColumn(Seq<char>),
}

impl View for StoreError {
    type V = StoreErrorV;

    open spec fn view(&self) -> StoreErrorV {
        match self {
            StoreError::UnknownColumn(name) => StoreErrorV::UnknownColumn(name@),
        }
    }
}

/// A projection request: everything, or an explicit attribute subset. A
/// `Select` never needs to list the id field; the planner always adds the
/// primary key itself.
#[derive(Debug)]
pub enum AttributeNames {
    All,
    Select(Vec<String>),
}

/// The mathematical value of a projection request.
pub enum AttributeNamesV {
    All,
    Select(Seq<Seq<char>>),
}

impl View for AttributeNames {
    type V = AttributeNamesV;

    open spec fn view(&self) -> AttributeNamesV {
        match self {
            AttributeNames::All => AttributeNamesV::All,
            AttributeNames::Select(names) => AttributeNamesV::Select(names.deep_view()),
        }
    }
}

/// A name reserved for the pseudo-columns the planner may append; a
/// validated schema declares no column under these names.
pub open spec fn reserved_column_name(n: Seq<char>) -> bool {
    ||| n == "__typename"@
    ||| n == "vid"@
    ||| n == "block"@
    ||| n == "block_range"@
}

/// One entity table: its qualified name, entity type name, columns, primary
/// key, and the flags steering versioning and causality filtering.
#[derive(Debug)]
pub struct Table {
    pub namespace: String,
    pub name: String,
    pub entity_typename: String,
    pub columns: Vec<Column>,
    pub primary_key: usize,
    pub immutable: bool,
    pub supports_causality_region: bool,
    pub likely_append_heavy: bool,
}

/// The mathematical value of a table descriptor.
pub struct TableV {
    pub namespace: Seq<char>,
    pub name: Seq<char>,
    pub entity_typename: Seq<char>,
    pub columns: Seq<ColumnV>,
    pub primary_key: int,
    pub immutable: bool,
    pub supports_causality_region: bool,
    pub likely_append_heavy: bool,
}

impl View for Table {
    type V = TableV;

    open spec fn view(&self) -> TableV {
        TableV {
            namespace: self.namespace@,
            name: self.name@,
            entity_typename: self.entity_typename@,
            columns: self.columns.deep_view(),
            primary_key: self.primary_key as int,
            immutable: self.immutable,
            supports_causality_region: self.supports_causality_region,
            likely_append_heavy: self.likely_append_heavy,
        }
    }
}

/// The first declared column with the given name.
pub open spec fn find_col(cols: Seq<ColumnV>, name: Seq<char>) -> Option<ColumnV>
    decreases cols.len(),
{
    if cols.len() == 0 {
        None
    } else if cols[0].name == name {
        Some(cols[0])
    } else {
        find_col(cols.drop_first(), name)
    }
}

/// What a successful lookup returns: one of the declared columns, under the
/// name that was asked for; a failed lookup means no declared column bears
/// the name.
pub proof fn lemma_find_col_props(cols: Seq<ColumnV>, name: Seq<char>)
    ensures
        match find_col(cols, name) {
            Some(c) => c.name == name && (exists|i: int| 0 <= i < cols.len() && cols[i] == c),
            None => forall|i: int| 0 <= i < cols.len() ==> cols[i].name != name,
        },
    decreases cols.len(),
{
    if cols.len() > 0 && cols[0].name != name {
        lemma_find_col_props(cols.drop_first(), name);
        match find_col(cols.drop_first(), name) {
            Some(c) => {
                let i = choose|i: int|
                    0 <= i < cols.drop_first().len() && cols.drop_first()[i] == c;
                assert(cols[i + 1] == c);
            },
            None => {
                assert forall|i: int| 0 <= i < cols.len() implies cols[i].name != name by {
                    if i > 0 {
                        assert(cols.drop_first()[i - 1] == cols[i]);
                    }
                }
            },
        }
    }
}

impl TableV {
    /// A validated table descriptor: the primary key is one of the declared
    /// columns, carries the id field's name and an id kind, column names are
    /// distinct, and no declared column usurps a reserved pseudo-column name.
    pub open spec fn wf(self) -> bool {
        &&& 0 <= self.primary_key < self.columns.len()
        &&& self.pk().name == "id"@
        &&& (self.pk().kind is String || self.pk().kind is Bytes || self.pk().kind is Int8)
        &&& !self.pk().is_list
        &&& !self.pk().is_nullable
        &&& (forall|i: int, j: int|
            0 <= i < j < self.columns.len() ==> self.columns[i].name != self.columns[j].name)
        &&& (forall|i: int|
            0 <= i < self.columns.len() ==> !reserved_column_name(#[trigger] self.columns[i].name))
    }

    /// The primary key column.
    pub open spec fn pk(self) -> ColumnV {
        self.columns[self.primary_key]
    }

    /// The id kind the table's primary key is declared with.
    pub open spec fn id_kind(self) -> IdType {
        match self.pk().kind {
            ColumnKindV::String => IdType::String,
            ColumnKindV::Bytes => IdType::Bytes,
            _ => IdType::Int8,
        }
    }

    /// Lookup among declared columns first, then the projectable
    /// pseudo-columns.
    pub open spec fn lookup_column(self, name: Seq<char>) -> Option<ColumnV> {
        match find_col(self.columns, name) {
            Some(c) => Some(c),
            None => {
                if name == "__typename"@ {
                    Some(typename_col_v())
                } else if name == "vid"@ {
                    Some(vid_col_v())
                } else {
                    None
                }
            },
        }
    }

    /// Lookup among declared columns only, as attribute names resolve.
    pub open spec fn declared_column(self, name: Seq<char>) -> Option<ColumnV> {
        find_col(self.columns, name)
    }
}

impl Table {
    /// A table descriptor with the given schema metadata.
    pub fn new(
        namespace: String,
        name: String,
        entity_typename: String,
        columns: Vec<Column>,
        primary_key: usize,
        immutable: bool,
        supports_causality_region: bool,
        likely_append_heavy: bool,
    ) -> (t: Table)
        ensures
            t@ == (TableV {
                namespace: namespace@,
                name: name@,
                entity_typename: entity_typename@,
                columns: columns.deep_view(),
                primary_key: primary_key as int,
                immutable,
                supports_causality_region,
                likely_append_heavy,
            }),
    {
        Table {
            namespace,
            name,
            entity_typename,
            columns,
            primary_key,
            immutable,
            supports_causality_region,
            likely_append_heavy,
        }
    }

    /// The first declared column with the given name.
    pub(crate) fn find_declared(&self, name: &str) -> (r: Option<Column>)
        ensures
            match r {
                Some(c) => self@.declared_column(name@) == Some(c@),
                None => self@.declared_column(name@) is None,
            },
    {
        let n = self.columns.len();
        proof {
            assert(self@.columns.skip(0) =~= self@.columns);
        }
        let mut i: usize = 0;
        while i < n
            invariant
                i <= n,
                n == self.columns@.len(),
                n == self@.columns.len(),
                find_col(self@.columns, name@) == find_col(self@.columns.skip(i as int), name@),
            decreases n - i,
        {
            if str_eq(self.columns[i].name.as_str(), name) {
                proof {
                    assert(self@.columns.skip(i as int)[0] == self@.columns[i as int]);
                }
                return Some(self.columns[i].cloned());
            }
            proof {
                assert(self@.columns.skip(i as int)[0] == self@.columns[i as int]);
                assert(self@.columns.skip(i as int).drop_first() =~= self@.columns.skip(
                    i + 1 as int,
                ));
            }
            i = i + 1;
        }
        None
    }

    /// Look a column up by name: declared columns first, then the
    /// projectable pseudo-columns.
    pub fn column(&self, name: &str) -> (r: Option<Column>)
        ensures
            match r {
                Some(c) => self@.lookup_column(name@) == Some(c@),
                None => self@.lookup_column(name@) is None,
            },
    {
        let found = self.find_declared(name);
        match found {
            Some(c) => Some(c),
            None => {
                if str_eq(name, "__typename") {
                    Some(typename_column())
                } else if str_eq(name, "vid") {
                    Some(vid_column())
                } else {
                    None
                }
            },
        }
    }

    /// Decide whether this descriptor is validated schema metadata, as the
    /// query-building functions assume.
    pub fn is_well_formed(&self) -> (r: bool)
        ensures
            r == self@.wf(),
    {
        let n = self.columns.len();
        proof {
            assert(self@.columns.len() == n);
        }
        if self.primary_key >= n {
            return false;
        }
        let pk = &self.columns[self.primary_key];
        if !str_eq(pk.name.as_str(), "id") {
            return false;
        }
        let pk_kind_ok = match &pk.kind {
            ColumnKind::String => true,
            ColumnKind::Bytes => true,
            ColumnKind::Int8 => true,
            _ => false,
        };
        if !pk_kind_ok {
            return false;
        }
        if pk.is_list || pk.is_nullable {
            return false;
        }
        let mut i: usize = 0;
        while i < n
            invariant
                i <= n,
                n == self.columns@.len(),
                n == self@.columns.len(),
                forall|a: int, b: int|
                    0 <= a < b < i ==> self@.columns[a].name != self@.columns[b].name,
                forall|a: int|
                    0 <= a < i ==> !reserved_column_name(#[trigger] self@.columns[a].name),
            decreases n - i,
        {
            let ci = &self.columns[i];
            if str_eq(ci.name.as_str(), "__typename") || str_eq(ci.name.as_str(), "vid") || str_eq(
                ci.name.as_str(),
                "block",
            ) || str_eq(ci.name.as_str(), "block_range") {
                return false;
            }
            let mut j: usize = 0;
            while j < i
                invariant
                    j <= i,
                    i < n,
                    n == self.columns@.len(),
                    n == self@.columns.len(),
                    forall|a: int| 0 <= a < j ==> self@.columns[a].name != self@.columns[i as int].name,
                decreases i - j,
            {
                if str_eq(self.columns[j].name.as_str(), self.columns[i].name.as_str()) {
                    proof {
                        assert(self@.columns[j as int] == self.columns@[j as int]@);
                        assert(self@.columns[i as int] == self.columns@[i as int]@);
                        assert(self@.columns[j as int].name == self@.columns[i as int].name);
                    }
                    return false;
                }
                j = j + 1;
            }
            i = i + 1;
        }
        true
    }

    /// The id kind the table's primary key is declared with.
    pub fn id_kind(&self) -> (r: IdType)
        requires
            self@.wf(),
        ensures
            r == self@.id_kind(),
    {
        match &self.columns[self.primary_key].kind {
            ColumnKind::String => IdType::String,
            ColumnKind::Bytes => IdType::Bytes,
            _ => IdType::Int8,
        }
    }

    /// The FROM target naming the table: `"namespace"."name"`, identifiers
    /// quoted in the SQL rendering.
    pub fn from_clause(&self) -> (r: SqlFragment)
        ensures
            r@ == seq![
                AtomV::Ident(self@.namespace),
                AtomV::Sql("."@),
                AtomV::Ident(self@.name),
            ],
    {
        let mut f = SqlFragment::new();
        f.push_ident(self.namespace.as_str());
        f.push_sql(".");
        f.push_ident(self.name.as_str());
        proof {
            assert(f@ =~= seq![
                AtomV::Ident(self@.namespace),
                AtomV::Sql("."@),
                AtomV::Ident(self@.name),
            ]);
        }
        f
    }
}

} // verus!
