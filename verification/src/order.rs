//! Load-time ordering of the project list.
//!
//! Projects are shown newest first. A project without a date comes after
//! every dated project, and projects without a date keep the order in
//! which the content document listed them.

use crate::content::Project;
use crate::text::{lemma_lex_le_total, lemma_lex_le_transitive, lex_le, str_lex_le};
use vstd::prelude::*;
use vstd::seq_lib::lemma_multiset_commutative;

verus! {

/// The project carries no date.
pub open spec fn undated(p: Project) -> bool {
    p.date is None
}

/// `undated` as a predicate value, for filtering.
pub open spec fn undated_pred() -> spec_fn(Project) -> bool {
    |q: Project| undated(q)
}

/// `a` may stand at or before `b` in the displayed list: dates descend,
/// and a project without a date comes after every dated one.
pub open spec fn precedes(a: Project, b: Project) -> bool {
    match (a.date, b.date) {
        (_, Option::None) => true,
        (Option::None, Option::Some(_)) => false,
        (Option::Some(x), Option::Some(y)) => lex_le(y@, x@),
    }
}

/// Every pair of entries stands in display order.
pub open spec fn projects_ordered(s: Seq<Project>) -> bool {
    forall|i: int, j: int| 0 <= i <= j < s.len() ==> #[trigger] precedes(s[i], s[j])
}

/// Any two projects are comparable; in particular every project may stand
/// beside itself.
pub proof fn lemma_precedes_total(a: Project, b: Project)
    ensures
        precedes(a, b) || precedes(b, a),
{
    match (a.date, b.date) {
        (Option::Some(x), Option::Some(y)) => lemma_lex_le_total(x@, y@),
        _ => (),
    }
}

/// Display order is transitive.
pub proof fn lemma_precedes_transitive(a: Project, b: Project, c: Project)
    requires
        precedes(a, b),
        precedes(b, c),
    ensures
        precedes(a, c),
{
    match (a.date, b.date, c.date) {
        (Option::Some(x), Option::Some(y), Option::Some(z)) => {
            lemma_lex_le_transitive(z@, y@, x@);
        },
        _ => (),
    }
}

/// Decides `precedes` over the stored date strings.
fn precedes_exec(a: &Project, b: &Project) -> (r: bool)
    ensures
        r == precedes(*a, *b),
{
    match &b.date {
        Option::None => true,
        Option::Some(y) => match &a.date {
            Option::None => false,
            Option::Some(x) => str_lex_le(y.as_str(), x.as_str()),
        },
    }
}

/// Inserting an element anywhere leaves the multiset of entries the same
/// but for that element.
proof fn lemma_insert_to_multiset<A>(s: Seq<A>, p: A, pos: int)
    requires
        0 <= pos <= s.len(),
    ensures
        s.insert(pos, p).to_multiset() == s.to_multiset().insert(p),
{
    let t = s.subrange(0, pos);
    let u = s.subrange(pos, s.len() as int);
    assert(s =~= t + u);
    lemma_multiset_commutative(t.push(p), u);
    lemma_multiset_commutative(t, u);
    t.to_multiset_ensures();
    assert(s.insert(pos, p).to_multiset() =~= s.to_multiset().insert(p));
}

/// Inserting an element the predicate rejects does not change the
/// filtered subsequence.
proof fn lemma_insert_filter_unchanged<A>(s: Seq<A>, p: A, pos: int, pred: spec_fn(A) -> bool)
    requires
        0 <= pos <= s.len(),
        !pred(p),
    ensures
        s.insert(pos, p).filter(pred) == s.filter(pred),
{
    let t = s.subrange(0, pos);
    let u = s.subrange(pos, s.len() as int);
    assert(s =~= t + u);
    Seq::filter_distributes_over_add(t.push(p), u, pred);
    Seq::filter_distributes_over_add(t, u, pred);
    t.lemma_filter_push(p, pred);
}

/// An ordered sequence stays ordered when an element is inserted between
/// everything that precedes it and everything it precedes.
proof fn lemma_ordered_insert(s: Seq<Project>, p: Project, pos: int)
    requires
        projects_ordered(s),
        0 <= pos <= s.len(),
        forall|k: int| 0 <= k < pos ==> precedes(#[trigger] s[k], p),
        forall|k: int| pos <= k < s.len() ==> precedes(p, #[trigger] s[k]),
    ensures
        projects_ordered(s.insert(pos, p)),
{
    s.insert_ensures(pos, p);
    let t = s.insert(pos, p);
    assert forall|i: int, j: int| 0 <= i <= j < t.len() implies #[trigger] precedes(
        t[i],
        t[j],
    ) by {
        if i == j {
            lemma_precedes_total(t[i], t[i]);
        } else if j < pos {
            assert(precedes(s[i], s[j]));
        } else if i < pos && j == pos {
            assert(precedes(s[i], p));
        } else if i < pos && j > pos {
            assert(precedes(s[i], s[j - 1]));
        } else if i == pos {
            assert(precedes(p, s[j - 1]));
        } else {
            assert(precedes(s[i - 1], s[j - 1]));
        }
    }
}

/// Sorts the loaded project list for display: dates descending, projects
/// without a date after all dated ones and in the relative order the
/// document listed them, no entry gained or lost.
pub fn sort_projects(input: Vec<Project>) -> (r: Vec<Project>)
    ensures
        r@.len() == input@.len(),
        projects_ordered(r@),
        r@.to_multiset() == input@.to_multiset(),
        r@.filter(undated_pred()) == input@.filter(undated_pred()),
{
    let ghost orig = input@;
    let mut rest = input;
    let mut out: Vec<Project> = Vec::new();
    let ghost mut done: int = 0;
    proof {
        assert(orig.skip(0) == orig);
        assert(orig.take(0) == Seq::<Project>::empty());
        assert(orig.take(0).to_multiset() =~= Seq::<Project>::empty().to_multiset());
        reveal(Seq::filter);
    }
    while rest.len() > 0
        invariant
            0 <= done <= orig.len(),
            rest@ == orig.skip(done),
            projects_ordered(out@),
            out@.to_multiset() == orig.take(done).to_multiset(),
            out@.filter(undated_pred()) == orig.take(done).filter(undated_pred()),
        decreases rest.len(),
    {
        assert(orig.skip(done)[0] == orig[done]);
        let p = rest.remove(0);
        proof {
            assert(rest@ =~= orig.skip(done + 1));
        }
        let mut pos: usize = 0;
        loop
            invariant
                pos <= out.len(),
                forall|k: int| 0 <= k < pos ==> precedes(#[trigger] out@[k], p),
            ensures
                pos <= out.len(),
                forall|k: int| 0 <= k < pos ==> precedes(#[trigger] out@[k], p),
                pos == out.len() || !precedes(out@[pos as int], p),
            decreases out.len() - pos,
        {
            if pos == out.len() {
                break;
            }
            if !precedes_exec(&out[pos], &p) {
                break;
            }
            pos = pos + 1;
        }
        proof {
            if (pos as int) < out@.len() {
                lemma_precedes_total(out@[pos as int], p);
                assert forall|k: int| pos <= k < out@.len() implies precedes(
                    p,
                    #[trigger] out@[k],
                ) by {
                    if k > pos {
                        assert(precedes(out@[pos as int], out@[k]));
                        lemma_precedes_transitive(p, out@[pos as int], out@[k]);
                    }
                }
            }
            lemma_ordered_insert(out@, p, pos as int);
            lemma_insert_to_multiset(out@, p, pos as int);
            orig.lemma_take_succ_push(done);
            orig.take(done).to_multiset_ensures();
            let pred = undated_pred();
            if undated(p) {
                assert(pos == out.len());
                assert(out@.insert(pos as int, p) =~= out@.push(p));
                out@.lemma_filter_push(p, pred);
                orig.take(done).lemma_filter_push(p, pred);
            } else {
                lemma_insert_filter_unchanged(out@, p, pos as int, pred);
                orig.take(done).lemma_filter_push(p, pred);
            }
            done = done + 1;
        }
        out.insert(pos, p);
    }
    proof {
        assert(orig.take(done) =~= orig);
        orig.to_multiset_ensures();
        out@.to_multiset_ensures();
    }
    out
}

} // verus!
