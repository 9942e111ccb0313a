//! The boundary to `polars` for elementwise comparison. Nothing in this file
//! is proved; each contract restates what the comparison kernels of `polars`
//! 0.55 compute: a boolean per position, null wherever an operand is null.
//!
//! Against a scalar the engine searches a series that is flagged as sorted
//! instead of comparing every element, so those wrappers clear the flag on a
//! copy first.

use crate::dtype::DType;
use crate::engine::{series_cells, series_label, series_tag};
use crate::model::{fill, relate_cells, Relation, MAX_LEN};
use polars::prelude::{ChunkCompareEq, ChunkCompareIneq, IntoSeries, PolarsError, Series};
use polars::series::IsSorted;
use vstd::prelude::*;

verus! {

/// Two series that comparison accepts: one modelled kind, one length, and
/// that within `MAX_LEN`.
pub open spec fn relate_ready(a: Series, b: Series) -> bool {
    &&& series_tag(a).modelled()
    &&& series_tag(a) == series_tag(b)
    &&& series_cells(a).len() == series_cells(b).len()
    &&& series_cells(a).len() <= MAX_LEN
}

/// `out` is the boolean series `a rel b`, under the name of `a`.
pub open spec fn relate_result(rel: Relation, a: Series, b: Series, out: Series) -> bool {
    &&& series_tag(out) == DType::Boolean
    &&& series_label(out) == series_label(a)
    &&& series_cells(out) == relate_cells(rel, series_cells(a), series_cells(b))
}

/// `out` is the boolean series `s rel x`, under the name of `s`.
pub open spec fn relate_scalar_result(rel: Relation, s: Series, x: i64, out: Series) -> bool {
    &&& series_tag(out) == DType::Boolean
    &&& series_label(out) == series_label(s)
    &&& series_cells(out) == relate_cells(
        rel,
        series_cells(s),
        fill(series_cells(s).len(), x as int),
    )
}

/// `ChunkCompareEq::equal` on two series.
#[verifier::external_body]
pub(crate) fn series_eq(a: &Series, b: &Series) -> (r: Result<Series, PolarsError>)
    requires
        relate_ready(*a, *b),
    ensures
        r is Ok,
        r matches Ok(out) ==> relate_result(Relation::Eq, *a, *b, out),
{
    Ok(ChunkCompareEq::equal(a, b)?.into_series())
}

/// `ChunkCompareEq::not_equal` on two series.
#[verifier::external_body]
pub(crate) fn series_neq(a: &Series, b: &Series) -> (r: Result<Series, PolarsError>)
    requires
        relate_ready(*a, *b),
    ensures
        r is Ok,
        r matches Ok(out) ==> relate_result(Relation::Neq, *a, *b, out),
{
    Ok(ChunkCompareEq::not_equal(a, b)?.into_series())
}

/// `ChunkCompareIneq::gt` on two series.
#[verifier::external_body]
pub(crate) fn series_gt(a: &Series, b: &Series) -> (r: Result<Series, PolarsError>)
    requires
        relate_ready(*a, *b),
    ensures
        r is Ok,
        r matches Ok(out) ==> relate_result(Relation::Gt, *a, *b, out),
{
    Ok(ChunkCompareIneq::gt(a, b)?.into_series())
}

/// `ChunkCompareIneq::gt_eq` on two series.
#[verifier::external_body]
pub(crate) fn series_gt_eq(a: &Series, b: &Series) -> (r: Result<Series, PolarsError>)
    requires
        relate_ready(*a, *b),
    ensures
        r is Ok,
        r matches Ok(out) ==> relate_result(Relation::GtEq, *a, *b, out),
{
    Ok(ChunkCompareIneq::gt_eq(a, b)?.into_series())
}

/// `ChunkCompareIneq::lt` on two series.
#[verifier::external_body]
pub(crate) fn series_lt(a: &Series, b: &Series) -> (r: Result<Series, PolarsError>)
    requires
        relate_ready(*a, *b),
    ensures
        r is Ok,
        r matches Ok(out) ==> relate_result(Relation::Lt, *a, *b, out),
{
    Ok(ChunkCompareIneq::lt(a, b)?.into_series())
}

/// `ChunkCompareIneq::lt_eq` on two series.
#[verifier::external_body]
pub(crate) fn series_lt_eq(a: &Series, b: &Series) -> (r: Result<Series, PolarsError>)
    requires
        relate_ready(*a, *b),
    ensures
        r is Ok,
        r matches Ok(out) ==> relate_result(Relation::LtEq, *a, *b, out),
{
    Ok(ChunkCompareIneq::lt_eq(a, b)?.into_series())
}

/// `ChunkCompareEq::equal` on a numeric series, its sorted flag cleared, and a
/// scalar. The engine casts the scalar to the kind of the series and panics if
/// it does not fit.
#[verifier::external_body]
pub(crate) fn series_eq_scalar(s: &Series, x: i64) -> (r: Result<Series, PolarsError>)
    requires
        series_tag(*s).numeric(),
        series_tag(*s).holds(x as int),
        series_cells(*s).len() <= MAX_LEN,
    ensures
        r is Ok,
        r matches Ok(out) ==> relate_scalar_result(Relation::Eq, *s, x, out),
{
    let mut plain = s.clone();
    plain.set_sorted_flag(IsSorted::Not);
    Ok(ChunkCompareEq::equal(&plain, x)?.into_series())
}

/// `ChunkCompareEq::not_equal` on a numeric series, its sorted flag cleared, and a scalar.
#[verifier::external_body]
pub(crate) fn series_neq_scalar(s: &Series, x: i64) -> (r: Result<Series, PolarsError>)
    requires
        series_tag(*s).numeric(),
        series_tag(*s).holds(x as int),
        series_cells(*s).len() <= MAX_LEN,
    ensures
        r is Ok,
        r matches Ok(out) ==> relate_scalar_result(Relation::Neq, *s, x, out),
{
    let mut plain = s.clone();
    plain.set_sorted_flag(IsSorted::Not);
    Ok(ChunkCompareEq::not_equal(&plain, x)?.into_series())
}

/// `ChunkCompareIneq::gt` on a numeric series, its sorted flag cleared, and a scalar.
#[verifier::external_body]
pub(crate) fn series_gt_scalar(s: &Series, x: i64) -> (r: Result<Series, PolarsError>)
    requires
        series_tag(*s).numeric(),
        series_tag(*s).holds(x as int),
        series_cells(*s).len() <= MAX_LEN,
    ensures
        r is Ok,
        r matches Ok(out) ==> relate_scalar_result(Relation::Gt, *s, x, out),
{
    let mut plain = s.clone();
    plain.set_sorted_flag(IsSorted::Not);
    Ok(ChunkCompareIneq::gt(&plain, x)?.into_series())
}

/// `ChunkCompareIneq::gt_eq` on a numeric series, its sorted flag cleared, and a scalar.
#[verifier::external_body]
pub(crate) fn series_gt_eq_scalar(s: &Series, x: i64) -> (r: Result<Series, PolarsError>)
    requires
        series_tag(*s).numeric(),
        series_tag(*s).holds(x as int),
        series_cells(*s).len() <= MAX_LEN,
    ensures
        r is Ok,
        r matches Ok(out) ==> relate_scalar_result(Relation::GtEq, *s, x, out),
{
    let mut plain = s.clone();
    plain.set_sorted_flag(IsSorted::Not);
    Ok(ChunkCompareIneq::gt_eq(&plain, x)?.into_series())
}

/// `ChunkCompareIneq::lt` on a numeric series, its sorted flag cleared, and a scalar.
#[verifier::external_body]
pub(crate) fn series_lt_scalar(s: &Series, x: i64) -> (r: Result<Series, PolarsError>)
    requires
        series_tag(*s).numeric(),
        series_tag(*s).holds(x as int),
        series_cells(*s).len() <= MAX_LEN,
    ensures
        r is Ok,
        r matches Ok(out) ==> relate_scalar_result(Relation::Lt, *s, x, out),
{
    let mut plain = s.clone();
    plain.set_sorted_flag(IsSorted::Not);
    Ok(ChunkCompareIneq::lt(&plain, x)?.into_series())
}

/// `ChunkCompareIneq::lt_eq` on a numeric series, its sorted flag cleared, and a scalar.
#[verifier::external_body]
pub(crate) fn series_lt_eq_scalar(s: &Series, x: i64) -> (r: Result<Series, PolarsError>)
    requires
        series_tag(*s).numeric(),
        series_tag(*s).holds(x as int),
        series_cells(*s).len() <= MAX_LEN,
    ensures
        r is Ok,
        r matches Ok(out) ==> relate_scalar_result(Relation::LtEq, *s, x, out),
{
    let mut plain = s.clone();
    plain.set_sorted_flag(IsSorted::Not);
    Ok(ChunkCompareIneq::lt_eq(&plain, x)?.into_series())
}

} // verus!
