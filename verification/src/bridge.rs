//! Moving whole collections between wrapped and bare series.
//!
//! Each element is moved, never copied: the collections change hands in time
//! linear in their length, and the element data is not touched.

use crate::series::PySeries;
use polars::prelude::Series;
use vstd::prelude::*;

verus! {

/// The bare series of each wrapper, in order.
pub open spec fn bare(ps: Seq<PySeries>) -> Seq<Series> {
    Seq::new(ps.len(), |i: int| ps[i].series)
}

/// A wrapper around each series, in order.
pub open spec fn wrapped(s: Seq<Series>) -> Seq<PySeries> {
    Seq::new(s.len(), |i: int| PySeries { series: s[i] })
}

/// Unwraps every element of `ps`, consuming the collection.
pub fn to_series_collection(ps: Vec<PySeries>) -> (r: Vec<Series>)
    ensures
        r@ == bare(ps@),
{
    let ghost all = ps@;
    let mut rest = ps;
    let mut back: Vec<Series> = Vec::with_capacity(rest.len());
    while rest.len() > 0
        invariant
            rest@.len() + back@.len() == all.len(),
            rest@ == all.subrange(0, rest@.len() as int),
            forall|j: int| 0 <= j < back@.len() ==> back@[j] == all[all.len() - 1 - j].series,
        decreases rest@.len(),
    {
        match rest.pop() {
            Some(p) => {
                back.push(p.series);
            },
            None => {},
        }
    }
    let ghost turned = back@;
    let mut out: Vec<Series> = Vec::with_capacity(back.len());
    while back.len() > 0
        invariant
            turned.len() == all.len(),
            back@.len() + out@.len() == turned.len(),
            back@ == turned.subrange(0, back@.len() as int),
            forall|j: int| 0 <= j < turned.len() ==> turned[j] == all[all.len() - 1 - j].series,
            forall|j: int| 0 <= j < out@.len() ==> out@[j] == all[j].series,
        decreases back@.len(),
    {
        match back.pop() {
            Some(s) => {
                out.push(s);
            },
            None => {},
        }
    }
    assert(out@ =~= bare(all));
    out
}

/// Wraps every element of `s`, consuming the collection.
pub fn to_pyseries_collection(s: Vec<Series>) -> (r: Vec<PySeries>)
    ensures
        r@ == wrapped(s@),
{
    let ghost all = s@;
    let mut rest = s;
    let mut back: Vec<PySeries> = Vec::with_capacity(rest.len());
    while rest.len() > 0
        invariant
            rest@.len() + back@.len() == all.len(),
            rest@ == all.subrange(0, rest@.len() as int),
            forall|j: int|
                0 <= j < back@.len() ==> back@[j] == (PySeries {
                    series: all[all.len() - 1 - j],
                }),
        decreases rest@.len(),
    {
        match rest.pop() {
            Some(series) => {
                back.push(PySeries { series });
            },
            None => {},
        }
    }
    let ghost turned = back@;
    let mut out: Vec<PySeries> = Vec::with_capacity(back.len());
    while back.len() > 0
        invariant
            turned.len() == all.len(),
            back@.len() + out@.len() == turned.len(),
            back@ == turned.subrange(0, back@.len() as int),
            forall|j: int|
                0 <= j < turned.len() ==> turned[j] == (PySeries {
                    series: all[all.len() - 1 - j],
                }),
            forall|j: int| 0 <= j < out@.len() ==> out@[j] == (PySeries { series: all[j] }),
        decreases back@.len(),
    {
        match back.pop() {
            Some(p) => {
                out.push(p);
            },
            None => {},
        }
    }
    assert(out@ =~= wrapped(all));
    out
}

} // verus!
