//! SQL fragments as plain data: a sequence of raw text pieces, identifiers
//! and typed bind parameters. A fragment has two renderings, both stated
//! exactly: the SQL form sent to the database (identifiers quoted, binds as
//! `$n` placeholders, built through diesel's own query builder) and an inline
//! form for humans and tests (identifiers bare, bind values inlined as
//! literals).

use vstd::prelude::*;
use vstd::string::{StrSliceExecFns, StringExecFns};
use crate::qb::{
    builder_binds, builder_finish, builder_new, builder_push_bind_param, builder_push_identifier,
    builder_push_sql, builder_sql,
};
use crate::text::{
    dec_digits, escape_squotes, hex_of, int_digits, push_char, push_escaped_squotes, push_hex,
    push_integer, quote_ident,
};

verus! {

/// A typed bind parameter: every comparison carries its own explicit wire
/// type, never an inferred one.
#[derive(Debug)]
pub enum BindValue {
    /// Bound as text.
    Text(String),
    /// Bound as binary.
    Binary(Vec<u8>),
    /// Bound as a 32-bit integer.
    Integer(i32),
    /// Bound as a 64-bit integer.
    BigInt(i64),
}

/// The mathematical value of a bind parameter.
pub enum BindV {
    Text(Seq<char>),
    Binary(Seq<u8>),
    Integer(int),
    BigInt(int),
}

impl View for BindValue {
    type V = BindV;

    open spec fn view(&self) -> BindV {
        match self {
            BindValue::Text(s) => BindV::Text(s@),
            BindValue::Binary(b) => BindV::Binary(b@),
            BindValue::Integer(i) => BindV::Integer(*i as int),
            BindValue::BigInt(i) => BindV::BigInt(*i as int),
        }
    }
}

impl DeepView for BindValue {
    type V = BindV;

    open spec fn deep_view(&self) -> BindV {
        self.view()
    }
}

/// One piece of a fragment: raw SQL text, an identifier to be quoted, or a
/// typed bind parameter.
#[derive(Debug)]
pub enum SqlAtom {
    Sql(String),
    Ident(String),
    Bind(BindValue),
}

/// The mathematical value of one fragment piece.
pub enum AtomV {
    Sql(Seq<char>),
    Ident(Seq<char>),
    Bind(BindV),
}

impl View for SqlAtom {
    type V = AtomV;

    open spec fn view(&self) -> AtomV {
        match self {
            SqlAtom::Sql(s) => AtomV::Sql(s@),
            SqlAtom::Ident(s) => AtomV::Ident(s@),
            SqlAtom::Bind(v) => AtomV::Bind(v@),
        }
    }
}

impl DeepView for SqlAtom {
    type V = AtomV;

    open spec fn deep_view(&self) -> AtomV {
        self.view()
    }
}

/// The inline rendering of one bind value, as a SQL literal.
pub open spec fn bind_inline(v: BindV) -> Seq<char> {
    match v {
        BindV::Text(s) => seq!['\''] + escape_squotes(s) + seq!['\''],
        BindV::Binary(b) => seq!['\'', '\\', 'x'] + hex_of(b) + seq!['\''],
        BindV::Integer(i) => int_digits(i),
        BindV::BigInt(i) => int_digits(i),
    }
}

/// The inline rendering of one fragment piece.
pub open spec fn atom_inline(a: AtomV) -> Seq<char> {
    match a {
        AtomV::Sql(s) => s,
        AtomV::Ident(s) => s,
        AtomV::Bind(v) => bind_inline(v),
    }
}

/// The inline rendering of a fragment: pieces in order, identifiers bare,
/// bind values inlined as literals.
pub open spec fn inline_text(atoms: Seq<AtomV>) -> Seq<char>
    decreases atoms.len(),
{
    if atoms.len() == 0 {
        Seq::<char>::empty()
    } else {
        inline_text(atoms.drop_last()) + atom_inline(atoms.last())
    }
}

/// How many bind parameters a fragment carries.
pub open spec fn bind_count(atoms: Seq<AtomV>) -> nat
    decreases atoms.len(),
{
    if atoms.len() == 0 {
        0
    } else {
        bind_count(atoms.drop_last()) + (if atoms.last() is Bind {
            1nat
        } else {
            0nat
        })
    }
}

/// The SQL rendering of one fragment piece, given how many bind parameters
/// come before it.
pub open spec fn atom_sql(a: AtomV, binds_before: int) -> Seq<char> {
    match a {
        AtomV::Sql(s) => s,
        AtomV::Ident(s) => quote_ident(s),
        AtomV::Bind(_) => seq!['$'] + dec_digits(binds_before + 1),
    }
}

/// The SQL rendering of a fragment: identifiers quoted, each bind parameter
/// as its `$n` placeholder, numbered from 1 in order of appearance.
pub open spec fn sql_text(atoms: Seq<AtomV>) -> Seq<char>
    decreases atoms.len(),
{
    if atoms.len() == 0 {
        Seq::<char>::empty()
    } else {
        sql_text(atoms.drop_last()) + atom_sql(atoms.last(), bind_count(atoms.drop_last()) as int)
    }
}

/// The bind parameters of a fragment, in order of appearance.
pub open spec fn binds_of(atoms: Seq<AtomV>) -> Seq<BindV>
    decreases atoms.len(),
{
    if atoms.len() == 0 {
        Seq::<BindV>::empty()
    } else {
        binds_of(atoms.drop_last()) + (match atoms.last() {
            AtomV::Bind(v) => seq![v],
            _ => Seq::<BindV>::empty(),
        })
    }
}

/// The inline rendering grows piece by piece.
pub proof fn lemma_inline_push(atoms: Seq<AtomV>, a: AtomV)
    ensures
        inline_text(atoms.push(a)) == inline_text(atoms) + atom_inline(a),
{
    assert(atoms.push(a).drop_last() =~= atoms);
    assert(atoms.push(a).last() == a);
}

/// The SQL rendering grows piece by piece.
pub proof fn lemma_sql_push(atoms: Seq<AtomV>, a: AtomV)
    ensures
        sql_text(atoms.push(a)) == sql_text(atoms) + atom_sql(a, bind_count(atoms) as int),
        bind_count(atoms.push(a)) == bind_count(atoms) + (if a is Bind {
            1nat
        } else {
            0nat
        }),
        binds_of(atoms.push(a)) == binds_of(atoms) + (match a {
            AtomV::Bind(v) => seq![v],
            _ => Seq::<BindV>::empty(),
        }),
{
    assert(atoms.push(a).drop_last() =~= atoms);
    assert(atoms.push(a).last() == a);
}

/// A prefix never carries more bind parameters than the whole.
pub proof fn lemma_bind_count_take_le(atoms: Seq<AtomV>, i: int)
    requires
        0 <= i <= atoms.len(),
    ensures
        bind_count(atoms.take(i)) <= bind_count(atoms),
    decreases atoms.len(),
{
    if i == atoms.len() {
        assert(atoms.take(i) =~= atoms);
    } else {
        assert(atoms.take(i) =~= atoms.drop_last().take(i));
        lemma_bind_count_take_le(atoms.drop_last(), i);
    }
}

pub(crate) fn clone_bytes(v: &Vec<u8>) -> (r: Vec<u8>)
    ensures
        r@ == v@,
{
    let mut r: Vec<u8> = Vec::new();
    let n = v.len();
    let mut i: usize = 0;
    while i < n
        invariant
            i <= n,
            n == v@.len(),
            r@ == v@.take(i as int),
        decreases n - i,
    {
        r.push(v[i]);
        proof {
            assert(v@.take(i as int).push(v@[i as int]) =~= v@.take(i + 1 as int));
        }
        i = i + 1;
    }
    proof {
        assert(v@.take(n as int) =~= v@);
    }
    r
}

impl BindValue {
    /// A copy with the same mathematical value.
    pub fn cloned(&self) -> (r: BindValue)
        ensures
            r@ == self@,
    {
        match self {
            BindValue::Text(s) => BindValue::Text(s.clone()),
            BindValue::Binary(b) => BindValue::Binary(clone_bytes(b)),
            BindValue::Integer(i) => BindValue::Integer(*i),
            BindValue::BigInt(i) => BindValue::BigInt(*i),
        }
    }
}

/// A SQL fragment under construction: an ordered sequence of pieces.
#[derive(Debug)]
pub struct SqlFragment {
    atoms: Vec<SqlAtom>,
}

impl View for SqlFragment {
    type V = Seq<AtomV>;

    closed spec fn view(&self) -> Seq<AtomV> {
        self.atoms.deep_view()
    }
}

impl SqlFragment {
    /// An empty fragment.
    pub fn new() -> (r: SqlFragment)
        ensures
            r@ == Seq::<AtomV>::empty(),
    {
        let r = SqlFragment { atoms: Vec::new() };
        proof {
            assert(r@ =~= Seq::<AtomV>::empty());
        }
        r
    }

    /// Append raw SQL text.
    pub fn push_sql(&mut self, sql: &str)
        ensures
            final(self)@ == old(self)@.push(AtomV::Sql(sql@)),
    {
        self.atoms.push(SqlAtom::Sql(String::from_str(sql)));
        proof {
            assert(self@ =~= old(self)@.push(AtomV::Sql(sql@)));
        }
    }

    /// Append an identifier, quoted in the SQL rendering.
    pub fn push_ident(&mut self, ident: &str)
        ensures
            final(self)@ == old(self)@.push(AtomV::Ident(ident@)),
    {
        self.atoms.push(SqlAtom::Ident(String::from_str(ident)));
        proof {
            assert(self@ =~= old(self)@.push(AtomV::Ident(ident@)));
        }
    }

    /// Append a typed bind parameter.
    pub fn push_bind(&mut self, v: BindValue)
        ensures
            final(self)@ == old(self)@.push(AtomV::Bind(v@)),
    {
        let ghost vv = v@;
        self.atoms.push(SqlAtom::Bind(v));
        proof {
            assert(self@ =~= old(self)@.push(AtomV::Bind(vv)));
        }
    }

    /// Append another fragment's pieces after this one's.
    pub fn append(&mut self, other: SqlFragment)
        ensures
            final(self)@ == old(self)@ + other@,
    {
        let ghost s0 = self@;
        let ghost o0 = other@;
        let mut other = other;
        self.atoms.append(&mut other.atoms);
        proof {
            assert(self@ =~= s0 + o0);
        }
    }

    /// The fragment's pieces, handed over for replay into another query
    /// accumulator.
    pub fn into_atoms(self) -> (r: Vec<SqlAtom>)
        ensures
            r.deep_view() == self@,
    {
        self.atoms
    }

    /// How many bind parameters the fragment carries.
    pub fn bind_len(&self) -> (r: usize)
        ensures
            r == bind_count(self@),
    {
        let n = self.atoms.len();
        let mut count: usize = 0;
        proof {
            assert(self@.take(0) =~= Seq::<AtomV>::empty());
        }
        let mut i: usize = 0;
        while i < n
            invariant
                i <= n,
                n == self@.len(),
                n == self.atoms@.len(),
                count <= i,
                count == bind_count(self@.take(i as int)),
            decreases n - i,
        {
            let ghost prefix = self@.take(i as int);
            let ghost cur = self@[i as int];
            let is_bind = match &self.atoms[i] {
                SqlAtom::Bind(_) => true,
                _ => false,
            };
            if is_bind {
                count = count + 1;
            }
            proof {
                lemma_sql_push(prefix, cur);
                assert(prefix.push(cur) =~= self@.take(i + 1 as int));
            }
            i = i + 1;
        }
        proof {
            assert(self@.take(n as int) =~= self@);
        }
        count
    }

    /// The inline rendering: identifiers bare, bind values as literals.
    pub fn inline_sql(&self) -> (r: String)
        ensures
            r@ == inline_text(self@),
    {
        let mut out = String::new();
        let n = self.atoms.len();
        proof {
            assert(self@.take(0) =~= Seq::<AtomV>::empty());
        }
        let mut i: usize = 0;
        while i < n
            invariant
                i <= n,
                n == self@.len(),
                n == self.atoms@.len(),
                out@ == inline_text(self@.take(i as int)),
            decreases n - i,
        {
            let ghost prefix = self@.take(i as int);
            let ghost cur = self@[i as int];
            match &self.atoms[i] {
                SqlAtom::Sql(s) => {
                    out.append(s.as_str());
                },
                SqlAtom::Ident(s) => {
                    out.append(s.as_str());
                },
                SqlAtom::Bind(v) => {
                    match v {
                        BindValue::Text(s) => {
                            push_char(&mut out, '\'');
                            push_escaped_squotes(&mut out, s.as_str());
                            push_char(&mut out, '\'');
                        },
                        BindValue::Binary(b) => {
                            push_char(&mut out, '\'');
                            push_char(&mut out, '\\');
                            push_char(&mut out, 'x');
                            push_hex(&mut out, b);
                            push_char(&mut out, '\'');
                        },
                        BindValue::Integer(x) => {
                            push_integer(&mut out, *x as i64);
                        },
                        BindValue::BigInt(x) => {
                            push_integer(&mut out, *x);
                        },
                    }
                },
            }
            proof {
                lemma_inline_push(prefix, cur);
                assert(prefix.push(cur) =~= self@.take(i + 1 as int));
                assert(out@ =~= inline_text(prefix) + atom_inline(cur));
            }
            i = i + 1;
        }
        proof {
            assert(self@.take(n as int) =~= self@);
        }
        out
    }

    /// The SQL rendering sent to the database, with its bind parameters in
    /// placeholder order.
    pub fn sql(&self) -> (r: (String, Vec<BindValue>))
        requires
            bind_count(self@) < u32::MAX,
        ensures
            r.0@ == sql_text(self@),
            r.1.deep_view() == binds_of(self@),
    {
        let mut qb = builder_new();
        let mut binds: Vec<BindValue> = Vec::new();
        let n = self.atoms.len();
        proof {
            assert(self@.take(0) =~= Seq::<AtomV>::empty());
            assert(binds.deep_view() =~= Seq::<BindV>::empty());
        }
        let mut i: usize = 0;
        while i < n
            invariant
                i <= n,
                n == self@.len(),
                n == self.atoms@.len(),
                bind_count(self@) < u32::MAX,
                builder_sql(qb) == sql_text(self@.take(i as int)),
                builder_binds(qb) == bind_count(self@.take(i as int)),
                binds.deep_view() == binds_of(self@.take(i as int)),
            decreases n - i,
        {
            let ghost prefix = self@.take(i as int);
            let ghost cur = self@[i as int];
            match &self.atoms[i] {
                SqlAtom::Sql(s) => {
                    builder_push_sql(&mut qb, s.as_str());
                },
                SqlAtom::Ident(s) => {
                    builder_push_identifier(&mut qb, s.as_str());
                },
                SqlAtom::Bind(v) => {
                    proof {
                        lemma_sql_push(prefix, cur);
                        assert(prefix.push(cur) =~= self@.take(i + 1 as int));
                        lemma_bind_count_take_le(self@, i + 1 as int);
                    }
                    builder_push_bind_param(&mut qb);
                    binds.push(v.cloned());
                },
            }
            proof {
                lemma_sql_push(prefix, cur);
                assert(prefix.push(cur) =~= self@.take(i + 1 as int));
                assert(binds.deep_view() =~= binds_of(self@.take(i + 1 as int)));
            }
            i = i + 1;
        }
        proof {
            assert(self@.take(n as int) =~= self@);
        }
        (builder_finish(qb), binds)
    }
}

} // verus!
