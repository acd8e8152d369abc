//! The projection planner: turns a projection request into the ordered,
//! deduplicated list of physical columns to fetch, primary key and required
//! pseudo-columns included. The planned list is the single source of truth
//! for column order: the select-clause assembler and the row decoder both
//! consume it unchanged.

use vstd::prelude::*;
use crate::table::{
    block_col_v, block_range_col_v, block_column, block_range_column, lemma_find_col_props,
    parent_col_v, parent_column, typename_col_v, typename_column, vid_col_v, vid_column,
    AttributeNames, AttributeNamesV, Column, ColumnV, IdType, StoreError, StoreErrorV, Table,
    TableV,
};
use crate::text::{lemma_lex_le_total, lemma_lex_lt_le_trans, lex_le, lex_lt, str_eq, str_lex_le};
use vstd::string::StringExecFns;

verus! {

/// The names of a column list, in order.
pub open spec fn names_of(cols: Seq<ColumnV>) -> Seq<Seq<char>> {
    cols.map_values(|c: ColumnV| c.name)
}

/// Every name strictly before every later one: sorted and duplicate-free.
pub open spec fn strictly_sorted(names: Seq<Seq<char>>) -> bool {
    forall|i: int, j: int| 0 <= i < j < names.len() ==> lex_lt(names[i], names[j])
}

/// Whether `x` occurs among `names`.
pub open spec fn contains_name(names: Seq<Seq<char>>, x: Seq<char>) -> bool {
    exists|i: int| 0 <= i < names.len() && names[i] == x
}

/// Insert a name into a sorted, duplicate-free list, keeping it sorted and
/// dropping the name if it is already present.
fn insert_sorted_dedup(v: &mut Vec<String>, x: String)
    requires
        strictly_sorted(old(v).deep_view()),
    ensures
        strictly_sorted(final(v).deep_view()),
        forall|s: Seq<char>|
            contains_name(final(v).deep_view(), s) <==> (contains_name(old(v).deep_view(), s) || s
                == x@),
{
    let ghost od = old(v).deep_view();
    let n = v.len();
    let mut i: usize = 0;
    while i < n
        invariant
            i <= n,
            n == v@.len(),
            v@ == old(v)@,
            od == old(v).deep_view(),
            strictly_sorted(od),
            forall|k: int| 0 <= k < i ==> lex_lt(#[trigger] od[k], x@),
        decreases n - i,
    {
        if str_eq(v[i].as_str(), x.as_str()) {
            proof {
                assert(od[i as int] == x@);
                assert(forall|s: Seq<char>|
                    contains_name(od, s) <==> (contains_name(od, s) || s == x@));
            }
            return ;
        }
        if str_lex_le(x.as_str(), v[i].as_str()) {
            proof {
                assert(lex_lt(x@, od[i as int]));
            }
            v.insert(i, x);
            proof {
                let nd = v.deep_view();
                assert(nd =~= od.insert(i as int, x@));
                assert forall|a: int, b: int| 0 <= a < b < nd.len() implies lex_lt(
                    nd[a],
                    nd[b],
                ) by {
                    if b < i {
                        assert(nd[a] == od[a] && nd[b] == od[b]);
                    } else if a < i && b == i {
                        assert(nd[a] == od[a] && nd[b] == x@);
                    } else if a < i && b > i {
                        assert(nd[a] == od[a] && nd[b] == od[b - 1]);
                        if i < b - 1 {
                            assert(lex_lt(od[i as int], od[b - 1]));
                            lemma_lex_lt_le_trans(x@, od[i as int], od[b - 1]);
                        }
                        lemma_lex_lt_le_trans(od[a], x@, od[b - 1]);
                    } else if a == i {
                        assert(nd[a] == x@ && nd[b] == od[b - 1]);
                        if i < b - 1 {
                            assert(lex_lt(od[i as int], od[b - 1]));
                            lemma_lex_lt_le_trans(x@, od[i as int], od[b - 1]);
                        }
                    } else {
                        assert(nd[a] == od[a - 1] && nd[b] == od[b - 1]);
                    }
                }
                assert forall|s: Seq<char>|
                    contains_name(nd, s) <==> (contains_name(od, s) || s == x@) by {
                    if contains_name(nd, s) {
                        let k = choose|k: int| 0 <= k < nd.len() && nd[k] == s;
                        if k < i {
                            assert(od[k] == s);
                        } else if k == i {
                            assert(s == x@);
                        } else {
                            assert(od[k - 1] == s);
                        }
                    }
                    if s == x@ {
                        assert(nd[i as int] == s);
                    }
                    if contains_name(od, s) {
                        let k = choose|k: int| 0 <= k < od.len() && od[k] == s;
                        if k < i {
                            assert(nd[k] == s);
                        } else {
                            assert(nd[k + 1] == s);
                        }
                    }
                }
            }
            return ;
        }
        proof {
            lemma_lex_le_total(x@, od[i as int]);
            assert(lex_lt(od[i as int], x@));
        }
        i = i + 1;
    }
    v.push(x);
    proof {
        let nd = v.deep_view();
        assert(nd =~= od.push(x@));
        assert forall|a: int, b: int| 0 <= a < b < nd.len() implies lex_lt(nd[a], nd[b]) by {
            if b == nd.len() - 1 {
                assert(nd[a] == od[a] && nd[b] == x@);
            } else {
                assert(nd[a] == od[a] && nd[b] == od[b]);
            }
        }
        assert forall|s: Seq<char>|
            contains_name(nd, s) <==> (contains_name(od, s) || s == x@) by {
            if contains_name(nd, s) {
                let k = choose|k: int| 0 <= k < nd.len() && nd[k] == s;
                if k < nd.len() - 1 {
                    assert(od[k] == s);
                }
            }
            if s == x@ {
                assert(nd[nd.len() - 1] == s);
            }
            if contains_name(od, s) {
                let k = choose|k: int| 0 <= k < od.len() && od[k] == s;
                assert(nd[k] == s);
            }
        }
    }
}

/// One name occurs in a list extended by one more name exactly when it
/// occurs in the list or is that name.
pub proof fn lemma_contains_push(names: Seq<Seq<char>>, y: Seq<char>, s: Seq<char>)
    ensures
        contains_name(names.push(y), s) <==> (contains_name(names, s) || s == y),
{
    if contains_name(names.push(y), s) {
        let k = choose|k: int| 0 <= k < names.push(y).len() && names.push(y)[k] == s;
        if k < names.len() {
            assert(names[k] == s);
        }
    }
    if s == y {
        assert(names.push(y)[names.len() as int] == s);
    }
    if contains_name(names, s) {
        let k = choose|k: int| 0 <= k < names.len() && names[k] == s;
        assert(names.push(y)[k] == s);
    }
}

/// The type-discriminant segment: the synthetic type-name column first, when
/// the decoding contract needs internal keys.
pub open spec fn plan_prefix(with_internal_keys: bool) -> Seq<ColumnV> {
    if with_internal_keys {
        seq![typename_col_v()]
    } else {
        Seq::<ColumnV>::empty()
    }
}

/// The parent-id segment: one pseudo-column whose physical kind matches the
/// parent id kind, when one is supplied and the decoding contract needs
/// internal keys.
pub open spec fn plan_parent(with_internal_keys: bool, parent: Option<IdType>) -> Seq<ColumnV> {
    if with_internal_keys {
        match parent {
            Some(k) => seq![parent_col_v(k)],
            None => Seq::<ColumnV>::empty(),
        }
    } else {
        Seq::<ColumnV>::empty()
    }
}

/// The system segment: the version/serial pseudo-column, then the
/// single-version column on an immutable table or the range column on a
/// mutable one.
pub open spec fn plan_system(t: TableV, with_system_columns: bool) -> Seq<ColumnV> {
    if with_system_columns {
        seq![vid_col_v()] + (if t.immutable {
            seq![block_col_v()]
        } else {
            seq![block_range_col_v()]
        })
    } else {
        Seq::<ColumnV>::empty()
    }
}

/// The body a `Select` request plans: the primary key first, then the
/// requested names minus the id field, deduplicated, in increasing
/// lexicographic order, each resolved to its declared column.
pub open spec fn select_body_ok(t: TableV, names: Seq<Seq<char>>, body: Seq<ColumnV>) -> bool {
    &&& body.len() >= 1
    &&& body[0] == t.pk()
    &&& strictly_sorted(names_of(body.drop_first()))
    &&& (forall|k: int|
        0 <= k < body.len() - 1 ==> {
            let c = #[trigger] body.drop_first()[k];
            &&& t.declared_column(c.name) == Some(c)
            &&& contains_name(names, c.name)
            &&& c.name != "id"@
        })
    &&& (forall|s: Seq<char>|
        contains_name(names, s) && s != "id"@ ==> contains_name(names_of(body.drop_first()), s))
}

/// The planned column list for a request: the type-discriminant segment,
/// then the body (every declared column in declaration order for `All`, the
/// primary key plus the sorted resolved selection for `Select`), then the
/// parent-id and system segments.
pub open spec fn plan_ok(
    t: TableV,
    req: AttributeNamesV,
    parent: Option<IdType>,
    with_internal_keys: bool,
    with_system_columns: bool,
    out: Seq<ColumnV>,
) -> bool {
    let pre = plan_prefix(with_internal_keys);
    let post = plan_parent(with_internal_keys, parent) + plan_system(t, with_system_columns);
    &&& out.len() >= pre.len() + post.len()
    &&& out.take(pre.len() as int) == pre
    &&& out.skip(out.len() - post.len()) == post
    &&& {
        let body = out.subrange(pre.len() as int, out.len() - post.len());
        match req {
            AttributeNamesV::All => body == t.columns,
            AttributeNamesV::Select(names) => select_body_ok(t, names, body),
        }
    }
}

/// No column name appears twice in a planned `Select` body: the selection is
/// deduplicated and the primary key cannot recur in it.
pub proof fn lemma_select_body_distinct(t: TableV, names: Seq<Seq<char>>, body: Seq<ColumnV>)
    requires
        t.wf(),
        select_body_ok(t, names, body),
    ensures
        forall|i: int, j: int| 0 <= i < j < body.len() ==> body[i].name != body[j].name,
{
    let rest = body.drop_first();
    assert forall|i: int, j: int| 0 <= i < j < body.len() implies body[i].name != body[j].name by {
        if i == 0 {
            assert(body[0].name == "id"@);
            assert(rest[j - 1] == body[j]);
            assert(rest[j - 1].name != "id"@);
        } else {
            assert(rest[i - 1] == body[i]);
            assert(rest[j - 1] == body[j]);
            assert(names_of(rest)[i - 1] == rest[i - 1].name);
            assert(names_of(rest)[j - 1] == rest[j - 1].name);
            assert(lex_lt(names_of(rest)[i - 1], names_of(rest)[j - 1]));
        }
    }
}

fn clone_columns(v: &Vec<Column>) -> (r: Vec<Column>)
    ensures
        r.deep_view() == v.deep_view(),
{
    let mut r: Vec<Column> = Vec::new();
    let n = v.len();
    proof {
        assert(r.deep_view() =~= v.deep_view().take(0));
    }
    let mut i: usize = 0;
    while i < n
        invariant
            i <= n,
            n == v@.len(),
            r.deep_view() == v.deep_view().take(i as int),
        decreases n - i,
    {
        let ghost rd0 = r.deep_view();
        let c = v[i].cloned();
        let ghost cv = c@;
        r.push(c);
        proof {
            assert(cv == v.deep_view()[i as int]);
            assert(r.deep_view() =~= rd0.push(cv));
            assert(rd0.push(cv) =~= v.deep_view().take(i + 1 as int));
        }
        i = i + 1;
    }
    proof {
        assert(v.deep_view().take(n as int) =~= v.deep_view());
    }
    r
}

/// The requested names minus the id field, deduplicated and sorted.
fn sorted_request_names(names: &Vec<String>) -> (r: Vec<String>)
    ensures
        strictly_sorted(r.deep_view()),
        forall|s: Seq<char>|
            contains_name(r.deep_view(), s) <==> (contains_name(names.deep_view(), s) && s
                != "id"@),
{
    let mut sorted: Vec<String> = Vec::new();
    let n = names.len();
    proof {
        assert(names.deep_view().take(0) =~= Seq::<Seq<char>>::empty());
        assert(sorted.deep_view() =~= Seq::<Seq<char>>::empty());
    }
    let mut i: usize = 0;
    while i < n
        invariant
            i <= n,
            n == names@.len(),
            n == names.deep_view().len(),
            strictly_sorted(sorted.deep_view()),
            forall|s: Seq<char>|
                contains_name(sorted.deep_view(), s) <==> (contains_name(
                    names.deep_view().take(i as int),
                    s,
                ) && s != "id"@),
        decreases n - i,
    {
        let ghost td0 = names.deep_view().take(i as int);
        let ghost nm = names.deep_view()[i as int];
        proof {
            assert(nm == names@[i as int]@);
        }
        let is_id = str_eq(names[i].as_str(), "id");
        if !is_id {
            insert_sorted_dedup(&mut sorted, names[i].clone());
        }
        proof {
            assert(names.deep_view().take(i + 1 as int) =~= td0.push(nm));
            assert forall|s: Seq<char>|
                contains_name(sorted.deep_view(), s) <==> (contains_name(td0.push(nm), s) && s
                    != "id"@) by {
                lemma_contains_push(td0, nm, s);
            }
        }
        i = i + 1;
    }
    proof {
        assert(names.deep_view().take(n as int) =~= names.deep_view());
    }
    sorted
}

impl Table {
    /// Resolve each name, in order, to its declared column; the first
    /// unresolvable name aborts with `UnknownColumn`.
    fn resolve_names(&self, sorted: &Vec<String>) -> (r: Result<Vec<Column>, StoreError>)
        requires
            self@.wf(),
            strictly_sorted(sorted.deep_view()),
        ensures
            match r {
                Ok(cols) => {
                    &&& cols.deep_view().len() == sorted.deep_view().len()
                    &&& (forall|k: int|
                        0 <= k < sorted.deep_view().len() ==> self@.declared_column(
                            #[trigger] sorted.deep_view()[k],
                        ) == Some(cols.deep_view()[k]))
                },
                Err(e) => e@ matches StoreErrorV::UnknownColumn(bad) && contains_name(
                    sorted.deep_view(),
                    bad,
                ) && self@.declared_column(bad) is None && (forall|m: Seq<char>|
                    contains_name(sorted.deep_view(), m) && self@.declared_column(m) is None
                        ==> lex_le(bad, m)),
            },
    {
        let ghost sd = sorted.deep_view();
        let mut cols: Vec<Column> = Vec::new();
        let m = sorted.len();
        let mut j: usize = 0;
        while j < m
            invariant
                j <= m,
                m == sorted@.len(),
                m == sd.len(),
                sd == sorted.deep_view(),
                self@.wf(),
                strictly_sorted(sd),
                cols.deep_view().len() == j,
                forall|k: int|
                    0 <= k < j ==> self@.declared_column(#[trigger] sd[k]) == Some(
                        cols.deep_view()[k],
                    ),
            decreases m - j,
        {
            proof {
                assert(sd[j as int] == sorted@[j as int]@);
            }
            let found = self.find_declared(sorted[j].as_str());
            match found {
                Some(c) => {
                    let ghost cd0 = cols.deep_view();
                    let ghost cv = c@;
                    cols.push(c);
                    proof {
                        assert(cols.deep_view() =~= cd0.push(cv));
                    }
                },
                None => {
                    proof {
                        assert(contains_name(sd, sd[j as int]));
                        assert forall|mm: Seq<char>|
                            contains_name(sd, mm) && self@.declared_column(mm) is None implies
                            lex_le(sd[j as int], mm) by {
                            let k = choose|k: int| 0 <= k < sd.len() && sd[k] == mm;
                            if k < j {
                                assert(self@.declared_column(sd[k]) == Some(
                                    cols.deep_view()[k],
                                ));
                                assert(false);
                            } else if k == j {
                                crate::text::lemma_lex_le_refl(sd[j as int]);
                            } else {
                                assert(lex_lt(sd[j as int], sd[k]));
                            }
                        }
                    }
                    return Err(StoreError::UnknownColumn(sorted[j].clone()));
                },
            }
            j = j + 1;
        }
        Ok(cols)
    }

    /// Plan the ordered, deduplicated column list to fetch for a projection
    /// request: the type-discriminant segment, then every declared column in
    /// declaration order (`All`) or the primary key followed by the sorted
    /// resolved selection (`Select`), then the parent-id and system
    /// segments. This exact list, in this exact order, is the single source
    /// of truth both for building the select clause and for decoding
    /// returned rows; a name resolving to no declared column aborts with
    /// `UnknownColumn` — the lexicographically least such name — and no
    /// partial list is handed out.
    #[verifier::rlimit(60)]
    pub fn selected_columns(
        &self,
        column_names: &AttributeNames,
        parent_type: Option<IdType>,
        with_internal_keys: bool,
        with_system_columns: bool,
    ) -> (r: Result<Vec<Column>, StoreError>)
        requires
            self@.wf(),
        ensures
            match r {
                Ok(cols) => {
                    &&& plan_ok(
                        self@,
                        column_names@,
                        parent_type,
                        with_internal_keys,
                        with_system_columns,
                        cols.deep_view(),
                    )
                    &&& (column_names@ matches AttributeNamesV::Select(names) ==> (forall|
                        s: Seq<char>,
                    |
                        contains_name(names, s) && s != "id"@ ==> self@.declared_column(s) is Some))
                },
                Err(e) => {
                    &&& column_names@ is Select
                    &&& (e@ matches StoreErrorV::UnknownColumn(bad) && column_names@ matches
                        AttributeNamesV::Select(names) && contains_name(names, bad) && bad != "id"@
                        && self@.declared_column(bad) is None && (forall|m: Seq<char>|
                        contains_name(names, m) && m != "id"@ && self@.declared_column(m) is None
                            ==> lex_le(bad, m)))
                },
            },
    {
        let mut cols: Vec<Column> = Vec::new();
        let ghost pre = plan_prefix(with_internal_keys);
        if with_internal_keys {
            cols.push(typename_column());
        }
        proof {
            assert(cols.deep_view() =~= pre);
        }
        let ghost body_d: Seq<ColumnV>;

        match column_names {
            AttributeNames::All => {
                let mut body = clone_columns(&self.columns);
                let ghost cd0 = cols.deep_view();
                cols.append(&mut body);
                proof {
                    body_d = self@.columns;
                    assert(cols.deep_view() =~= cd0 + body_d);
                }
            },
            AttributeNames::Select(names) => {
                let sorted = sorted_request_names(names);
                let ghost sd = sorted.deep_view();
                let mut resolved = match self.resolve_names(&sorted) {
                    Ok(resolved) => resolved,
                    Err(e) => {
                        return Err(e);
                    },
                };
                let ghost rd = resolved.deep_view();
                let ghost cd0 = cols.deep_view();
                let pk = self.columns[self.primary_key].cloned();
                cols.push(pk);
                cols.append(&mut resolved);
                proof {
                    body_d = seq![self@.pk()] + rd;
                    assert(cols.deep_view() =~= cd0 + body_d);
                    // The resolved columns bear the sorted names, so the
                    // body is the primary key followed by the sorted
                    // selection resolved column by column.
                    assert forall|k: int| 0 <= k < rd.len() implies (#[trigger] rd[k]).name
                        == sd[k] by {
                        lemma_find_col_props(self@.columns, sd[k]);
                    }
                    let rest = body_d.drop_first();
                    assert(rest =~= rd);
                    assert(names_of(rd) =~= sd);
                    assert(select_body_ok(self@, names.deep_view(), body_d));
                }
            },
        }
        let ghost mid = cols.deep_view();
        proof {
            assert(mid == pre + body_d);
        }

        if with_internal_keys {
            match parent_type {
                Some(ptype) => {
                    cols.push(parent_column(ptype));
                },
                None => {},
            }
        }
        proof {
            assert(cols.deep_view() =~= mid + plan_parent(with_internal_keys, parent_type));
        }
        let ghost with_parent = cols.deep_view();

        if with_system_columns {
            cols.push(vid_column());
            if self.immutable {
                cols.push(block_column());
            } else {
                cols.push(block_range_column());
            }
        }
        proof {
            assert(cols.deep_view() =~= with_parent + plan_system(self@, with_system_columns));
            let out = cols.deep_view();
            let post = plan_parent(with_internal_keys, parent_type) + plan_system(
                self@,
                with_system_columns,
            );
            assert(out =~= pre + body_d + post);
            assert(out.take(pre.len() as int) =~= pre);
            assert(out.skip(out.len() - post.len()) =~= post);
            assert(out.subrange(pre.len() as int, out.len() - post.len()) =~= body_d);
        }
        Ok(cols)
    }
}

} // verus!
