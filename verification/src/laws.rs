//! Laws that relate the operations to one another, proved over the model.

use crate::bridge::{bare, wrapped};
use crate::dtype::DType;
use crate::model::{
    cell_le, first_occurrences, gather, int_value, is_first, is_permutation, keep, min_of, null_count, relate_cells, same_data,
    scalar_lt, selected_nulls, selects, selects_non_null, sorted, str_lt, sum_of, sum_spec,
    Relation, Scalar,
};
use crate::error::PyPolarsEr;
use crate::relate::equal_outcome;
use crate::series::{fits, PySeries};
use vstd::prelude::*;
use vstd::relations::{sorted_by, total_ordering};
use vstd::seq_lib::{
    lemma_sorted_unique, to_multiset_build, to_multiset_contains, to_multiset_remove,
};

verus! {

/// A window of `length` elements has exactly that length, and cutting a series
/// at any position `n` and appending the second part to the first gives the
/// series back.
pub proof fn lemma_slice_then_append_restores(c: Seq<Option<Scalar>>, n: int)
    requires
        0 <= n <= c.len(),
    ensures
        c.subrange(0, n).len() == n,
        c.subrange(n, c.len() as int).len() == c.len() - n,
        c.subrange(0, n) + c.subrange(n, c.len() as int) == c,
{
    assert(c.subrange(0, n) + c.subrange(n, c.len() as int) =~= c);
}

/// No string is below itself.
pub proof fn lemma_str_lt_irreflexive(a: Seq<char>)
    ensures
        !str_lt(a, a),
    decreases a.len(),
{
    if a.len() > 0 {
        lemma_str_lt_irreflexive(a.drop_first());
    }
}

/// Of two strings at most one is below the other.
pub proof fn lemma_str_lt_asymmetric(a: Seq<char>, b: Seq<char>)
    requires
        str_lt(a, b),
    ensures
        !str_lt(b, a),
    decreases a.len(),
{
    if a.len() > 0 && b.len() > 0 && a[0] == b[0] {
        lemma_str_lt_asymmetric(a.drop_first(), b.drop_first());
    }
}

/// The order on strings is transitive.
pub proof fn lemma_str_lt_transitive(a: Seq<char>, b: Seq<char>, c: Seq<char>)
    requires
        str_lt(a, b),
        str_lt(b, c),
    ensures
        str_lt(a, c),
    decreases a.len(),
{
    if a.len() > 0 && b.len() > 0 && c.len() > 0 && a[0] == b[0] && b[0] == c[0] {
        lemma_str_lt_transitive(a.drop_first(), b.drop_first(), c.drop_first());
    }
}

/// Two strings of which neither is below the other are the same string.
pub proof fn lemma_str_lt_connected(a: Seq<char>, b: Seq<char>)
    requires
        !str_lt(a, b),
        !str_lt(b, a),
    ensures
        a == b,
    decreases a.len(),
{
    if a.len() == 0 || b.len() == 0 {
        assert(a =~= b);
    } else {
        assert(a[0] == b[0]) by {
            if a[0] != b[0] {
                assert((a[0] as int) != (b[0] as int));
            }
        }
        lemma_str_lt_connected(a.drop_first(), b.drop_first());
        assert(a =~= seq![a[0]] + a.drop_first());
        assert(b =~= seq![b[0]] + b.drop_first());
    }
}

/// The order on scalars is a strict total order.
pub proof fn lemma_scalar_lt_strict_total(a: Scalar, b: Scalar, c: Scalar)
    ensures
        !scalar_lt(a, a),
        scalar_lt(a, b) ==> !scalar_lt(b, a),
        scalar_lt(a, b) && scalar_lt(b, c) ==> scalar_lt(a, c),
        a == b || scalar_lt(a, b) || scalar_lt(b, a),
{
    match (a, b, c) {
        (Scalar::Str(x), Scalar::Str(y), Scalar::Str(z)) => {
            lemma_str_lt_irreflexive(x);
            if str_lt(x, y) {
                lemma_str_lt_asymmetric(x, y);
                if str_lt(y, z) {
                    lemma_str_lt_transitive(x, y, z);
                }
            } else if !str_lt(y, x) {
                lemma_str_lt_connected(x, y);
            }
        },
        (Scalar::Str(x), Scalar::Str(y), _) => {
            lemma_str_lt_irreflexive(x);
            if str_lt(x, y) {
                lemma_str_lt_asymmetric(x, y);
            } else if !str_lt(y, x) {
                lemma_str_lt_connected(x, y);
            }
        },
        (Scalar::Str(x), _, _) => {
            lemma_str_lt_irreflexive(x);
        },
        _ => {},
    }
}

/// The sorting order, nulls last, is a total order on cells.
pub proof fn lemma_cell_le_total()
    ensures
        total_ordering(|a: Option<Scalar>, b: Option<Scalar>| cell_le(a, b)),
{
    let leq = |a: Option<Scalar>, b: Option<Scalar>| cell_le(a, b);
    assert forall|x: Option<Scalar>| #[trigger] leq(x, x) by {}
    assert forall|x: Option<Scalar>, y: Option<Scalar>| #[trigger]
        leq(x, y) && #[trigger] leq(y, x) implies x == y by {
        if x is Some && y is Some {
            lemma_scalar_lt_strict_total(x->0, y->0, x->0);
        }
    }
    assert forall|x: Option<Scalar>, y: Option<Scalar>, z: Option<Scalar>| #[trigger]
        leq(x, y) && #[trigger] leq(y, z) implies leq(x, z) by {
        if x is Some && y is Some && z is Some {
            lemma_scalar_lt_strict_total(x->0, y->0, z->0);
        }
    }
    assert forall|x: Option<Scalar>, y: Option<Scalar>| #[trigger] leq(x, y) || #[trigger] leq(
        y,
        x,
    ) by {
        if x is Some && y is Some {
            lemma_scalar_lt_strict_total(x->0, y->0, x->0);
        }
    }
}

/// Sorting has one possible result: two sorted sequences that hold the same
/// elements, each as often as the other, are equal.
pub proof fn lemma_sorted_arrangement_is_unique(x: Seq<Option<Scalar>>, y: Seq<Option<Scalar>>)
    requires
        sorted(x),
        sorted(y),
        x.to_multiset() == y.to_multiset(),
    ensures
        x == y,
{
    let leq = |a: Option<Scalar>, b: Option<Scalar>| cell_le(a, b);
    lemma_cell_le_total();
    assert(sorted_by(x, leq));
    assert(sorted_by(y, leq));
    lemma_sorted_unique(x, y, leq);
}

/// The positions of a permutation with its last entry removed, renumbered to
/// address the sequence without the element that entry pointed at.
pub open spec fn without_last(idx: Seq<usize>) -> Seq<usize> {
    let p = idx.last();
    Seq::new(
        (idx.len() - 1) as nat,
        |i: int|
            if idx[i] > p {
                (idx[i] - 1) as usize
            } else {
                idx[i]
            },
    )
}

/// Gathering along a permutation rearranges: the result holds the elements of
/// the source, each as often as the source does.
pub proof fn lemma_gather_rearranges(c: Seq<Option<Scalar>>, idx: Seq<usize>)
    requires
        is_permutation(idx, c.len()),
    ensures
        gather(c, idx).to_multiset() == c.to_multiset(),
    decreases c.len(),
{
    let g = gather(c, idx);
    if c.len() == 0 {
        assert(g =~= c);
    } else {
        let p = idx.last() as int;
        let rest = c.remove(p);
        let sub = without_last(idx);
        assert(is_permutation(sub, rest.len())) by {
            assert forall|i: int| 0 <= i < sub.len() implies (#[trigger] sub[i]) < rest.len() by {
                assert(idx[i] != idx[idx.len() - 1]);
                assert(idx[i] < c.len());
            }
            assert forall|i: int, j: int| 0 <= i < j < sub.len() implies sub[i] != sub[j] by {
                assert(idx[i] != idx[j]);
                assert(idx[i] != idx[idx.len() - 1]);
                assert(idx[j] != idx[idx.len() - 1]);
            }
        }
        assert(gather(rest, sub) =~= g.drop_last()) by {
            assert forall|i: int| 0 <= i < sub.len() implies gather(rest, sub)[i] == g[i] by {
                assert(idx[i] != idx[idx.len() - 1]);
                assert(idx[i] < c.len());
            }
        }
        lemma_gather_rearranges(rest, sub);
        to_multiset_remove(c, p);
        assert(g =~= g.drop_last().push(c[p]));
        to_multiset_build(g.drop_last(), c[p]);
        to_multiset_contains(c, c[p]);
        assert(c.to_multiset().count(c[p]) > 0);
        assert(c.to_multiset().remove(c[p]).insert(c[p]) =~= c.to_multiset());
        assert(g.to_multiset() =~= c.to_multiset());
    }
}

/// Gathering along the sorting permutation gives what sorting gives: with
/// `idx` as `argsort` returns it for `c`, and `s` as `sort` leaves `c`, the
/// series `take(idx)` equals `s`.
pub proof fn lemma_take_argsort_is_sort(
    c: Seq<Option<Scalar>>,
    idx: Seq<usize>,
    s: Seq<Option<Scalar>>,
)
    requires
        is_permutation(idx, c.len()),
        sorted(gather(c, idx)),
        sorted(s),
        s.to_multiset() == c.to_multiset(),
    ensures
        gather(c, idx) == s,
{
    lemma_gather_rearranges(c, idx);
    lemma_sorted_arrangement_is_unique(gather(c, idx), s);
}

/// There are never more nulls than elements.
pub proof fn lemma_null_count_bounded(c: Seq<Option<Scalar>>)
    ensures
        null_count(c) <= c.len(),
        null_count(c) == c.len() <==> forall|i: int| 0 <= i < c.len() ==> c[i] is None,
    decreases c.len(),
{
    if c.len() > 0 {
        lemma_null_count_bounded(c.drop_last());
        if null_count(c) == c.len() {
            assert forall|i: int| 0 <= i < c.len() implies c[i] is None by {
                if i < c.len() - 1 {
                    assert(c.drop_last()[i] == c[i]);
                }
            }
        }
        if forall|i: int| 0 <= i < c.len() ==> c[i] is None {
            assert forall|i: int| 0 <= i < c.drop_last().len() implies c.drop_last()[i] is None by {
                assert(c.drop_last()[i] == c[i]);
            }
        }
    }
}

/// What filtering keeps, counted: as many elements as the mask selects, of
/// which as many are null as the mask selects nulls of the source. A filter
/// never yields more nulls than its source holds.
pub proof fn lemma_filter_null_count(c: Seq<Option<Scalar>>, m: Seq<Option<Scalar>>)
    requires
        m.len() == c.len(),
    ensures
        keep(c, m).len() <= c.len(),
        null_count(keep(c, m)) == selected_nulls(c, m),
        selected_nulls(c, m) <= null_count(c),
    decreases c.len(),
{
    if c.len() > 0 {
        let rest = keep(c.drop_last(), m.drop_last());
        lemma_filter_null_count(c.drop_last(), m.drop_last());
        if selects(m.last()) {
            assert(rest.push(c.last()).drop_last() =~= rest);
        }
    }
}

/// Nulls do not count: filtering the nulls out first changes neither the sum
/// nor the minimum, and the filtered series has no null left.
pub proof fn lemma_aggregates_skip_nulls(
    kind: DType,
    c: Seq<Option<Scalar>>,
    m: Seq<Option<Scalar>>,
)
    requires
        selects_non_null(c, m),
    ensures
        null_count(keep(c, m)) == 0,
        keep(c, m).len() == c.len() - null_count(c),
        sum_of(keep(c, m)) == sum_of(c),
        sum_spec(kind, keep(c, m)) == sum_spec(kind, c),
        min_of(keep(c, m)) == min_of(c),
    decreases c.len(),
{
    if c.len() > 0 {
        let rest = keep(c.drop_last(), m.drop_last());
        assert(selects_non_null(c.drop_last(), m.drop_last())) by {
            assert forall|i: int| 0 <= i < c.len() - 1 implies (selects(
                #[trigger] m.drop_last()[i],
            ) <==> c.drop_last()[i] is Some) by {
                assert(m.drop_last()[i] == m[i]);
                assert(c.drop_last()[i] == c[i]);
            }
        }
        lemma_aggregates_skip_nulls(kind, c.drop_last(), m.drop_last());
        assert(selects(m[c.len() - 1]) <==> c[c.len() - 1] is Some);
        if selects(m.last()) {
            assert(rest.push(c.last()).drop_last() =~= rest);
        }
        lemma_null_count_bounded(c);
        lemma_null_count_bounded(keep(c, m));
    }
}

/// A sum is absent exactly if every element is null, which includes the empty
/// series.
pub proof fn lemma_sum_absent_iff_all_null(kind: DType, c: Seq<Option<Scalar>>)
    ensures
        sum_spec(kind, c) is None <==> null_count(c) == c.len(),
        c.len() == 0 ==> sum_spec(kind, c) is None,
        sum_spec(kind, c) matches Some(v) ==> kind.numeric() ==> kind.holds(v),
{
}

/// The minimum is an element that no integer element is below, and it is
/// absent exactly if there is no integer element.
pub proof fn lemma_min_is_least(c: Seq<Option<Scalar>>)
    ensures
        min_of(c) matches Some(m) ==> {
            &&& exists|i: int| 0 <= i < c.len() && int_value(#[trigger] c[i]) == Some(m)
            &&& forall|j: int|
                0 <= j < c.len() && int_value(#[trigger] c[j]) is Some ==> m <= int_value(c[j])->0
        },
        min_of(c) is None <==> forall|j: int| 0 <= j < c.len() ==> int_value(#[trigger] c[j]) is None,
    decreases c.len(),
{
    if c.len() > 0 {
        let d = c.drop_last();
        lemma_min_is_least(d);
        assert forall|j: int| 0 <= j < d.len() implies d[j] == c[j] by {}
        match min_of(c) {
            Some(m) => {
                if int_value(c.last()) == Some(m) {
                    assert(int_value(c[c.len() - 1]) == Some(m));
                } else {
                    let i = choose|i: int| 0 <= i < d.len() && int_value(#[trigger] d[i]) == Some(m);
                    assert(int_value(c[i]) == Some(m));
                }
                assert forall|j: int|
                    0 <= j < c.len() && int_value(#[trigger] c[j]) is Some implies m <= int_value(
                    c[j],
                )->0 by {
                    if j < d.len() {
                        assert(d[j] == c[j]);
                    }
                }
            },
            None => {
                assert forall|j: int| 0 <= j < c.len() implies int_value(#[trigger] c[j]) is None by {
                    if j < d.len() {
                        assert(d[j] == c[j]);
                    }
                }
            },
        }
    }
}

/// What the list of first occurrences holds: exactly the positions whose
/// element occurs at no earlier position, in ascending order.
pub proof fn lemma_first_occurrences(c: Seq<Option<Scalar>>)
    requires
        c.len() <= usize::MAX,
    ensures
        forall|k: int|
            0 <= k < first_occurrences(c).len() ==> (#[trigger] first_occurrences(c)[k]) < c.len()
                && is_first(c, first_occurrences(c)[k] as int),
        forall|a: int, b: int|
            0 <= a < b < first_occurrences(c).len() ==> first_occurrences(c)[a]
                < first_occurrences(c)[b],
        forall|i: int|
            0 <= i < c.len() && is_first(c, i) ==> exists|k: int|
                0 <= k < first_occurrences(c).len() && #[trigger] first_occurrences(c)[k] == i,
    decreases c.len(),
{
    if c.len() > 0 {
        let d = c.drop_last();
        let f = first_occurrences(c);
        let g = first_occurrences(d);
        let last = c.len() - 1;
        lemma_first_occurrences(d);
        assert forall|i: int| 0 <= i < d.len() implies is_first(d, i) == is_first(c, i) by {
            assert forall|j: int| 0 <= j <= i implies d[j] == c[j] by {}
        }
        assert forall|k: int| 0 <= k < g.len() implies f[k] == g[k] by {}
        assert forall|k: int| 0 <= k < f.len() implies (#[trigger] f[k]) < c.len() && is_first(
            c,
            f[k] as int,
        ) by {
            if k < g.len() {
                assert(f[k] == g[k]);
            }
        }
        assert forall|a: int, b: int| 0 <= a < b < f.len() implies f[a] < f[b] by {
            assert(f[a] == g[a]);
            if b < g.len() {
                assert(f[b] == g[b]);
            }
        }
        assert forall|i: int| 0 <= i < c.len() && is_first(c, i) implies exists|k: int|
            0 <= k < f.len() && #[trigger] f[k] == i by {
            if i < last {
                assert(is_first(d, i));
                let k = choose|k: int| 0 <= k < g.len() && #[trigger] g[k] == i;
                assert(f[k] == i);
            } else {
                assert(f[f.len() - 1] == i);
            }
        }
    }
}

/// A series compared with itself for equality is `true` wherever it holds a
/// value and null wherever it holds a null; it is `false` nowhere.
pub proof fn lemma_eq_with_itself(c: Seq<Option<Scalar>>)
    ensures
        relate_cells(Relation::Eq, c, c).len() == c.len(),
        forall|i: int|
            0 <= i < c.len() ==> #[trigger] relate_cells(Relation::Eq, c, c)[i] == if c[i] is None {
                None
            } else {
                Some(Scalar::Bool(true))
            },
{
}

/// Every series holds the same data as itself, and so as its clone; and
/// `series_equal` says so of every series of the closed set that is no longer
/// than `MAX_LEN`, whichever kind it carries.
pub proof fn lemma_equal_to_clone(s: PySeries, c: PySeries, r: Result<bool, PyPolarsEr>)
    requires
        c == s,
        equal_outcome(r, s, c),
    ensures
        same_data(s@, c@),
        s@.dtype != DType::Other && fits(s@) ==> r == Ok::<bool, PyPolarsEr>(true),
{
}

/// Unwrapping a collection and wrapping it again, or the other way round,
/// gives back the collection it started from: every series with its name, its
/// kind and its elements.
pub proof fn lemma_bridge_round_trip(ps: Seq<PySeries>, s: Seq<polars::prelude::Series>)
    ensures
        wrapped(bare(ps)) == ps,
        bare(wrapped(s)) == s,
        bare(ps).len() == ps.len(),
        wrapped(s).len() == s.len(),
{
    assert(wrapped(bare(ps)) =~= ps);
    assert(bare(wrapped(s)) =~= s);
}

} // verus!
