//! The boundary to `polars` for elementwise arithmetic and for numeric
//! aggregation. Nothing in this file is proved; each contract restates what
//! the integer kernels of `polars` 0.55 compute: wrapping addition,
//! subtraction and multiplication, flooring division that yields null on a
//! zero divisor, and null wherever an operand is null.

use crate::engine::{series_cells, series_label, series_tag};
use crate::model::{arith_cells, fill, min_of, sum_of, ArithOp, MAX_LEN};
use polars::prelude::{LhsNumOps, PolarsError, Series};
use polars::series::IsSorted;
use vstd::prelude::*;

verus! {

/// Two series that elementwise arithmetic accepts: one numeric kind, one
/// length, and that within `MAX_LEN`.
pub open spec fn arith_ready(a: Series, b: Series) -> bool {
    &&& series_tag(a).numeric()
    &&& series_tag(a) == series_tag(b)
    &&& series_cells(a).len() == series_cells(b).len()
    &&& series_cells(a).len() <= MAX_LEN
}

/// `out` is `a op b`, element by element, under the name and kind of `a`.
pub open spec fn arith_result(op: ArithOp, a: Series, b: Series, out: Series) -> bool {
    &&& series_tag(out) == series_tag(a)
    &&& series_label(out) == series_label(a)
    &&& series_cells(out) == arith_cells(op, series_tag(a), series_cells(a), series_cells(b))
}

/// A numeric series within `MAX_LEN` and a scalar that fits its kind.
pub open spec fn scalar_ready(s: Series, x: i64) -> bool {
    &&& series_tag(s).numeric()
    &&& series_tag(s).holds(x as int)
    &&& series_cells(s).len() <= MAX_LEN
}

/// `out` is `s op x` element by element, or `x op s` if `reversed`, under the
/// name and kind of `s`.
pub open spec fn scalar_result(op: ArithOp, s: Series, x: i64, reversed: bool, out: Series) -> bool {
    let t = series_tag(s);
    let c = series_cells(s);
    let k = fill(c.len(), x as int);
    &&& series_tag(out) == t
    &&& series_label(out) == series_label(s)
    &&& series_cells(out) == if reversed {
        arith_cells(op, t, k, c)
    } else {
        arith_cells(op, t, c, k)
    }
}

/// `&Series + &Series`.
#[verifier::external_body]
pub(crate) fn series_add(a: &Series, b: &Series) -> (r: Result<Series, PolarsError>)
    requires
        arith_ready(*a, *b),
    ensures
        r is Ok,
        r matches Ok(out) ==> arith_result(ArithOp::Add, *a, *b, out),
{
    a + b
}

/// `&Series - &Series`.
#[verifier::external_body]
pub(crate) fn series_sub(a: &Series, b: &Series) -> (r: Result<Series, PolarsError>)
    requires
        arith_ready(*a, *b),
    ensures
        r is Ok,
        r matches Ok(out) ==> arith_result(ArithOp::Sub, *a, *b, out),
{
    a - b
}

/// `&Series * &Series`.
#[verifier::external_body]
pub(crate) fn series_mul(a: &Series, b: &Series) -> (r: Result<Series, PolarsError>)
    requires
        arith_ready(*a, *b),
    ensures
        r is Ok,
        r matches Ok(out) ==> arith_result(ArithOp::Mul, *a, *b, out),
{
    a * b
}

/// `&Series / &Series`.
#[verifier::external_body]
pub(crate) fn series_div(a: &Series, b: &Series) -> (r: Result<Series, PolarsError>)
    requires
        arith_ready(*a, *b),
    ensures
        r is Ok,
        r matches Ok(out) ==> arith_result(ArithOp::Div, *a, *b, out),
{
    a / b
}

/// `&Series + scalar`. The engine casts the scalar to the kind of the series
/// and panics if it does not fit, hence the precondition.
#[verifier::external_body]
pub(crate) fn series_add_scalar(s: &Series, x: i64) -> (r: Series)
    requires
        scalar_ready(*s, x),
    ensures
        scalar_result(ArithOp::Add, *s, x, false, r),
{
    s + x
}

/// `&Series - scalar`.
#[verifier::external_body]
pub(crate) fn series_sub_scalar(s: &Series, x: i64) -> (r: Series)
    requires
        scalar_ready(*s, x),
    ensures
        scalar_result(ArithOp::Sub, *s, x, false, r),
{
    s - x
}

/// `&Series * scalar`.
#[verifier::external_body]
pub(crate) fn series_mul_scalar(s: &Series, x: i64) -> (r: Series)
    requires
        scalar_ready(*s, x),
    ensures
        scalar_result(ArithOp::Mul, *s, x, false, r),
{
    s * x
}

/// `&Series / scalar`.
#[verifier::external_body]
pub(crate) fn series_div_scalar(s: &Series, x: i64) -> (r: Series)
    requires
        scalar_ready(*s, x),
    ensures
        scalar_result(ArithOp::Div, *s, x, false, r),
{
    s / x
}

/// `LhsNumOps::add`: `scalar + series`.
#[verifier::external_body]
pub(crate) fn scalar_add_series(x: i64, s: &Series) -> (r: Series)
    requires
        scalar_ready(*s, x),
    ensures
        scalar_result(ArithOp::Add, *s, x, true, r),
{
    LhsNumOps::add(x, s)
}

/// `LhsNumOps::sub`: `scalar - series`.
#[verifier::external_body]
pub(crate) fn scalar_sub_series(x: i64, s: &Series) -> (r: Series)
    requires
        scalar_ready(*s, x),
    ensures
        scalar_result(ArithOp::Sub, *s, x, true, r),
{
    LhsNumOps::sub(x, s)
}

/// `LhsNumOps::mul`: `scalar * series`.
#[verifier::external_body]
pub(crate) fn scalar_mul_series(x: i64, s: &Series) -> (r: Series)
    requires
        scalar_ready(*s, x),
    ensures
        scalar_result(ArithOp::Mul, *s, x, true, r),
{
    LhsNumOps::mul(x, s)
}

/// `LhsNumOps::div`: `scalar / series`.
#[verifier::external_body]
pub(crate) fn scalar_div_series(x: i64, s: &Series) -> (r: Series)
    requires
        scalar_ready(*s, x),
    ensures
        scalar_result(ArithOp::Div, *s, x, true, r),
{
    LhsNumOps::div(x, s)
}

/// `Series::sum`, read out as 64 bits: the sum of the non-null elements,
/// wrapped into the kind of the series. It is zero if there is none.
#[verifier::external_body]
pub(crate) fn series_sum(s: &Series) -> (r: Result<i64, PolarsError>)
    requires
        series_tag(*s).numeric(),
        series_cells(*s).len() <= MAX_LEN,
    ensures
        r is Ok,
        r matches Ok(v) ==> v == series_tag(*s).wrap(sum_of(series_cells(*s))),
{
    s.sum::<i64>()
}

/// `Series::min` on a copy whose sorted flag is cleared, read out as 64 bits:
/// the least non-null element, if any; it is a value of the kind of the
/// series.
#[verifier::external_body]
pub(crate) fn series_min(s: &Series) -> (r: Result<Option<i64>, PolarsError>)
    requires
        series_tag(*s).numeric(),
        series_cells(*s).len() <= MAX_LEN,
    ensures
        r is Ok,
        r matches Ok(v) ==> match v {
            Some(x) => min_of(series_cells(*s)) == Some(x as int) && series_tag(*s).holds(
                x as int,
            ),
            None => min_of(series_cells(*s)) is None,
        },
{
    let mut plain = s.clone();
    plain.set_sorted_flag(IsSorted::Not);
    plain.min::<i64>()
}

} // verus!
