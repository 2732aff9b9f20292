//! Facts about sequences of stored rows: unique lookup and filtering.
use vstd::prelude::*;

verus! {

/// The row that satisfies `p`, if some row does. Where at most one row can
/// satisfy `p` (a unique column), this is the row a query finds.
pub open spec fn lookup<A>(rows: Seq<A>, p: spec_fn(A) -> bool) -> Option<A> {
    if exists|i: int| 0 <= i < rows.len() && #[trigger] p(rows[i]) {
        Some(rows[choose|i: int| 0 <= i < rows.len() && #[trigger] p(rows[i])])
    } else {
        None
    }
}

/// Where at most one row satisfies `p` and row `k` does, `lookup` finds row `k`.
pub proof fn lemma_lookup_at<A>(rows: Seq<A>, p: spec_fn(A) -> bool, k: int)
    requires
        0 <= k < rows.len(),
        p(rows[k]),
        forall|i: int, j: int|
            0 <= i < rows.len() && 0 <= j < rows.len() && #[trigger] p(rows[i]) && #[trigger] p(
                rows[j],
            ) ==> i == j,
    ensures
        lookup(rows, p) == Some(rows[k]),
{
    let c = choose|i: int| 0 <= i < rows.len() && #[trigger] p(rows[i]);
    assert(0 <= c < rows.len() && p(rows[c]));
}

/// Where `p` holds of exactly the rows whose projection by a distinct `f`
/// is `v`, and row `k` has projection `v`, `lookup` finds row `k`.
pub proof fn lemma_lookup_unique_at<A, K>(
    rows: Seq<A>,
    p: spec_fn(A) -> bool,
    f: spec_fn(A) -> K,
    v: K,
    k: int,
)
    requires
        0 <= k < rows.len(),
        distinct_by(rows, f),
        f(rows[k]) == v,
        forall|x: A| #[trigger] p(x) == (f(x) == v),
    ensures
        lookup(rows, p) == Some(rows[k]),
{
    assert forall|i: int, j: int|
        0 <= i < rows.len() && 0 <= j < rows.len() && #[trigger] p(rows[i]) && #[trigger] p(
            rows[j],
        ) implies i == j by {
        if i != j {
            assert(f(rows[i]) != f(rows[j]));
        }
    }
    lemma_lookup_at(rows, p, k);
}

/// What `lookup` finds is a row, and satisfies `p`.
pub proof fn lemma_lookup_some<A>(rows: Seq<A>, p: spec_fn(A) -> bool)
    requires
        lookup(rows, p) is Some,
    ensures
        exists|i: int| 0 <= i < rows.len() && rows[i] == lookup(rows, p)->Some_0,
        p(lookup(rows, p)->Some_0),
{
    let c = choose|i: int| 0 <= i < rows.len() && #[trigger] p(rows[i]);
    assert(rows[c] == lookup(rows, p)->Some_0);
}

/// Where no row satisfies `p`, `lookup` finds nothing.
pub proof fn lemma_lookup_none<A>(rows: Seq<A>, p: spec_fn(A) -> bool)
    requires
        forall|i: int| 0 <= i < rows.len() ==> !#[trigger] p(rows[i]),
    ensures
        lookup(rows, p) is None,
{
}

/// Rows whose projection by `f` differs pairwise.
pub open spec fn distinct_by<A, K>(rows: Seq<A>, f: spec_fn(A) -> K) -> bool {
    forall|i: int, j: int|
        0 <= i < rows.len() && 0 <= j < rows.len() && i != j ==> f(#[trigger] rows[i]) != f(
            #[trigger] rows[j],
        )
}

/// Filtering keeps projections pairwise distinct.
pub proof fn lemma_filter_distinct<A, K>(rows: Seq<A>, p: spec_fn(A) -> bool, f: spec_fn(A) -> K)
    requires
        distinct_by(rows, f),
    ensures
        distinct_by(rows.filter(p), f),
    decreases rows.len(),
{
    broadcast use vstd::seq_lib::group_filter_ensures;

    reveal(Seq::filter);
    if rows.len() > 0 {
        let init = rows.drop_last();
        assert(distinct_by(init, f)) by {
            assert forall|i: int, j: int|
                0 <= i < init.len() && 0 <= j < init.len() && i != j implies f(
                #[trigger] init[i],
            ) != f(#[trigger] init[j]) by {
                assert(init[i] == rows[i] && init[j] == rows[j]);
            }
        }
        lemma_filter_distinct(init, p, f);
        let sub = init.filter(p);
        if p(rows.last()) {
            let out = sub.push(rows.last());
            assert forall|i: int, j: int|
                0 <= i < out.len() && 0 <= j < out.len() && i != j implies f(#[trigger] out[i])
                != f(#[trigger] out[j]) by {
                if i < sub.len() && j < sub.len() {
                    assert(out[i] == sub[i] && out[j] == sub[j]);
                } else {
                    let k = if i < sub.len() {
                        i
                    } else {
                        j
                    };
                    assert(out[k] == sub[k]);
                    lemma_filter_member(init, p, k);
                    let m = choose|m: int| 0 <= m < init.len() && init[m] == sub[k];
                    assert(rows[m] == init[m]);
                    assert(f(rows[m]) != f(rows[rows.len() - 1]));
                }
            }
        }
    }
}

/// Each row of a filtered sequence is a row of the original.
pub proof fn lemma_filter_member<A>(rows: Seq<A>, p: spec_fn(A) -> bool, k: int)
    requires
        0 <= k < rows.filter(p).len(),
    ensures
        exists|m: int| 0 <= m < rows.len() && rows[m] == rows.filter(p)[k],
        p(rows.filter(p)[k]),
{
    broadcast use vstd::seq_lib::group_filter_ensures;

    assert(rows.filter(p).contains(rows.filter(p)[k]));
    rows.lemma_filter_contains_rev(p, rows.filter(p)[k]);
}

/// A row of the original that satisfies `p` is a row of the filtered sequence.
pub proof fn lemma_filter_keeps<A>(rows: Seq<A>, p: spec_fn(A) -> bool, m: int)
    requires
        0 <= m < rows.len(),
        p(rows[m]),
    ensures
        exists|k: int| 0 <= k < rows.filter(p).len() && rows.filter(p)[k] == rows[m],
{
    broadcast use vstd::seq_lib::group_filter_ensures;

    assert(rows.filter(p).contains(rows[m]));
}

/// One step of a loop that filters `rows` into a growing sequence.
pub proof fn lemma_filter_step<A>(rows: Seq<A>, p: spec_fn(A) -> bool, i: int)
    requires
        0 <= i < rows.len(),
    ensures
        rows.take(i + 1).filter(p) == if p(rows[i]) {
            rows.take(i).filter(p).push(rows[i])
        } else {
            rows.take(i).filter(p)
        },
{
    assert(rows.take(i + 1) =~= rows.take(i).push(rows[i]));
    rows.take(i).lemma_filter_push(rows[i], p);
}

} // verus!
