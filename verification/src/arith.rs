//! Elementwise arithmetic: series with series, and series with a scalar of
//! each numeric kind in both operand orders.

use crate::dtype::DType;
use crate::engine::series_dtype;
use crate::engine_arith::{
    scalar_add_series, scalar_div_series, scalar_mul_series, scalar_sub_series, series_add,
    series_add_scalar, series_div, series_div_scalar, series_mul, series_mul_scalar, series_sub,
    series_sub_scalar,
};
use crate::error::PyPolarsEr;
use crate::model::{arith_cells, fill, ArithOp, SeriesView};
use crate::series::{fits, operands_match, with_cells, PySeries};
use vstd::prelude::*;

verus! {

/// What `a op b` returns. Both operands must carry the same numeric kind, which
/// is also the kind of the result; no other pairing is promoted. They must be
/// equally long: a series is never stretched to fit another. And they must
/// have no more than `MAX_LEN` elements.
pub open spec fn arith_outcome(
    r: Result<PySeries, PyPolarsEr>,
    a: SeriesView,
    b: SeriesView,
    op: ArithOp,
) -> bool {
    if !a.dtype.numeric() || a.dtype != b.dtype {
        r matches Err(PyPolarsEr::TypeMismatch)
    } else if a.cells.len() != b.cells.len() {
        r matches Err(PyPolarsEr::LengthMismatch)
    } else if !fits(a) {
        r matches Err(PyPolarsEr::TooLong)
    } else {
        r matches Ok(out) && out@ == with_cells(a, arith_cells(op, a.dtype, a.cells, b.cells))
    }
}

/// What `v op x` returns for a scalar `x` of the numeric kind `kind`, or
/// `x op v` if `reversed`: the scalar meets every element of a series of that
/// very kind.
pub open spec fn scalar_outcome(
    r: Result<PySeries, PyPolarsEr>,
    v: SeriesView,
    kind: DType,
    op: ArithOp,
    x: int,
    reversed: bool,
) -> bool {
    if v.dtype != kind {
        r matches Err(PyPolarsEr::TypeMismatch)
    } else if !fits(v) {
        r matches Err(PyPolarsEr::TooLong)
    } else if reversed {
        r matches Ok(out) && out@ == with_cells(
            v,
            arith_cells(op, kind, fill(v.cells.len(), x), v.cells),
        )
    } else {
        r matches Ok(out) && out@ == with_cells(
            v,
            arith_cells(op, kind, v.cells, fill(v.cells.len(), x)),
        )
    }
}

impl PySeries {
    /// Dispatches `self op other` to the kernel for `op`.
    pub fn arith(&self, other: &PySeries, op: ArithOp) -> (r: Result<PySeries, PyPolarsEr>)
        ensures
            arith_outcome(r, self@, other@, op),
    {
        if !series_dtype(&self.series).is_numeric() {
            return Err(PyPolarsEr::TypeMismatch);
        }
        match operands_match(self, other) {
            Ok(()) => {},
            Err(e) => {
                return Err(e);
            },
        }
        let res = match op {
            ArithOp::Add => series_add(&self.series, &other.series),
            ArithOp::Sub => series_sub(&self.series, &other.series),
            ArithOp::Mul => series_mul(&self.series, &other.series),
            ArithOp::Div => series_div(&self.series, &other.series),
        };
        match res {
            Ok(series) => Ok(PySeries { series }),
            Err(e) => Err(PyPolarsEr::from(e)),
        }
    }

    /// Dispatches `self op x`, or `x op self` if `reversed`, to the kernel for
    /// `op`, after checking that `self` carries the kind the scalar is of.
    fn arith_scalar(&self, kind: DType, op: ArithOp, x: i64, reversed: bool) -> (r: Result<
        PySeries,
        PyPolarsEr,
    >)
        requires
            kind.numeric(),
            kind.holds(x as int),
        ensures
            scalar_outcome(r, self@, kind, op, x as int, reversed),
    {
        match self.operand_of(kind) {
            Ok(()) => {},
            Err(e) => {
                return Err(e);
            },
        }
        let series = if reversed {
            match op {
                ArithOp::Add => scalar_add_series(x, &self.series),
                ArithOp::Sub => scalar_sub_series(x, &self.series),
                ArithOp::Mul => scalar_mul_series(x, &self.series),
                ArithOp::Div => scalar_div_series(x, &self.series),
            }
        } else {
            match op {
                ArithOp::Add => series_add_scalar(&self.series, x),
                ArithOp::Sub => series_sub_scalar(&self.series, x),
                ArithOp::Mul => series_mul_scalar(&self.series, x),
                ArithOp::Div => series_div_scalar(&self.series, x),
            }
        };
        Ok(PySeries { series })
    }

    pub fn add(&self, other: &PySeries) -> (r: Result<PySeries, PyPolarsEr>)
        ensures
            arith_outcome(r, self@, other@, ArithOp::Add),
    {
        self.arith(other, ArithOp::Add)
    }

    pub fn sub(&self, other: &PySeries) -> (r: Result<PySeries, PyPolarsEr>)
        ensures
            arith_outcome(r, self@, other@, ArithOp::Sub),
    {
        self.arith(other, ArithOp::Sub)
    }

    pub fn mul(&self, other: &PySeries) -> (r: Result<PySeries, PyPolarsEr>)
        ensures
            arith_outcome(r, self@, other@, ArithOp::Mul),
    {
        self.arith(other, ArithOp::Mul)
    }

    /// Flooring division; an element divided by zero is null.
    pub fn div(&self, other: &PySeries) -> (r: Result<PySeries, PyPolarsEr>)
        ensures
            arith_outcome(r, self@, other@, ArithOp::Div),
    {
        self.arith(other, ArithOp::Div)
    }

    /// `self + other`, element by element.
    pub fn add_u32(&self, other: u32) -> (r: Result<PySeries, PyPolarsEr>)
        ensures
            scalar_outcome(r, self@, DType::UInt32, ArithOp::Add, other as int, false),
    {
        self.arith_scalar(DType::UInt32, ArithOp::Add, other as i64, false)
    }

    /// `self + other`, element by element.
    pub fn add_i32(&self, other: i32) -> (r: Result<PySeries, PyPolarsEr>)
        ensures
            scalar_outcome(r, self@, DType::Int32, ArithOp::Add, other as int, false),
    {
        self.arith_scalar(DType::Int32, ArithOp::Add, other as i64, false)
    }

    /// `self + other`, element by element.
    pub fn add_i64(&self, other: i64) -> (r: Result<PySeries, PyPolarsEr>)
        ensures
            scalar_outcome(r, self@, DType::Int64, ArithOp::Add, other as int, false),
    {
        self.arith_scalar(DType::Int64, ArithOp::Add, other as i64, false)
    }

    /// `self - other`, element by element.
    pub fn sub_u32(&self, other: u32) -> (r: Result<PySeries, PyPolarsEr>)
        ensures
            scalar_outcome(r, self@, DType::UInt32, ArithOp::Sub, other as int, false),
    {
        self.arith_scalar(DType::UInt32, ArithOp::Sub, other as i64, false)
    }

    /// `self - other`, element by element.
    pub fn sub_i32(&self, other: i32) -> (r: Result<PySeries, PyPolarsEr>)
        ensures
            scalar_outcome(r, self@, DType::Int32, ArithOp::Sub, other as int, false),
    {
        self.arith_scalar(DType::Int32, ArithOp::Sub, other as i64, false)
    }

    /// `self - other`, element by element.
    pub fn sub_i64(&self, other: i64) -> (r: Result<PySeries, PyPolarsEr>)
        ensures
            scalar_outcome(r, self@, DType::Int64, ArithOp::Sub, other as int, false),
    {
        self.arith_scalar(DType::Int64, ArithOp::Sub, other as i64, false)
    }

    /// `self / other`, element by element.
    pub fn div_u32(&self, other: u32) -> (r: Result<PySeries, PyPolarsEr>)
        ensures
            scalar_outcome(r, self@, DType::UInt32, ArithOp::Div, other as int, false),
    {
        self.arith_scalar(DType::UInt32, ArithOp::Div, other as i64, false)
    }

    /// `self / other`, element by element.
    pub fn div_i32(&self, other: i32) -> (r: Result<PySeries, PyPolarsEr>)
        ensures
            scalar_outcome(r, self@, DType::Int32, ArithOp::Div, other as int, false),
    {
        self.arith_scalar(DType::Int32, ArithOp::Div, other as i64, false)
    }

    /// `self / other`, element by element.
    pub fn div_i64(&self, other: i64) -> (r: Result<PySeries, PyPolarsEr>)
        ensures
            scalar_outcome(r, self@, DType::Int64, ArithOp::Div, other as int, false),
    {
        self.arith_scalar(DType::Int64, ArithOp::Div, other as i64, false)
    }

    /// `self * other`, element by element.
    pub fn mul_u32(&self, other: u32) -> (r: Result<PySeries, PyPolarsEr>)
        ensures
            scalar_outcome(r, self@, DType::UInt32, ArithOp::Mul, other as int, false),
    {
        self.arith_scalar(DType::UInt32, ArithOp::Mul, other as i64, false)
    }

    /// `self * other`, element by element.
    pub fn mul_i32(&self, other: i32) -> (r: Result<PySeries, PyPolarsEr>)
        ensures
            scalar_outcome(r, self@, DType::Int32, ArithOp::Mul, other as int, false),
    {
        self.arith_scalar(DType::Int32, ArithOp::Mul, other as i64, false)
    }

    /// `self * other`, element by element.
    pub fn mul_i64(&self, other: i64) -> (r: Result<PySeries, PyPolarsEr>)
        ensures
            scalar_outcome(r, self@, DType::Int64, ArithOp::Mul, other as int, false),
    {
        self.arith_scalar(DType::Int64, ArithOp::Mul, other as i64, false)
    }

    /// `other + self`, element by element.
    pub fn add_u32_rhs(&self, other: u32) -> (r: Result<PySeries, PyPolarsEr>)
        ensures
            scalar_outcome(r, self@, DType::UInt32, ArithOp::Add, other as int, true),
    {
        self.arith_scalar(DType::UInt32, ArithOp::Add, other as i64, true)
    }

    /// `other + self`, element by element.
    pub fn add_i32_rhs(&self, other: i32) -> (r: Result<PySeries, PyPolarsEr>)
        ensures
            scalar_outcome(r, self@, DType::Int32, ArithOp::Add, other as int, true),
    {
        self.arith_scalar(DType::Int32, ArithOp::Add, other as i64, true)
    }

    /// `other + self`, element by element.
    pub fn add_i64_rhs(&self, other: i64) -> (r: Result<PySeries, PyPolarsEr>)
        ensures
            scalar_outcome(r, self@, DType::Int64, ArithOp::Add, other as int, true),
    {
        self.arith_scalar(DType::Int64, ArithOp::Add, other as i64, true)
    }

    /// `other - self`, element by element.
    pub fn sub_u32_rhs(&self, other: u32) -> (r: Result<PySeries, PyPolarsEr>)
        ensures
            scalar_outcome(r, self@, DType::UInt32, ArithOp::Sub, other as int, true),
    {
        self.arith_scalar(DType::UInt32, ArithOp::Sub, other as i64, true)
    }

    /// `other - self`, element by element.
    pub fn sub_i32_rhs(&self, other: i32) -> (r: Result<PySeries, PyPolarsEr>)
        ensures
            scalar_outcome(r, self@, DType::Int32, ArithOp::Sub, other as int, true),
    {
        self.arith_scalar(DType::Int32, ArithOp::Sub, other as i64, true)
    }

    /// `other - self`, element by element.
    pub fn sub_i64_rhs(&self, other: i64) -> (r: Result<PySeries, PyPolarsEr>)
        ensures
            scalar_outcome(r, self@, DType::Int64, ArithOp::Sub, other as int, true),
    {
        self.arith_scalar(DType::Int64, ArithOp::Sub, other as i64, true)
    }

    /// `other / self`, element by element.
    pub fn div_u32_rhs(&self, other: u32) -> (r: Result<PySeries, PyPolarsEr>)
        ensures
            scalar_outcome(r, self@, DType::UInt32, ArithOp::Div, other as int, true),
    {
        self.arith_scalar(DType::UInt32, ArithOp::Div, other as i64, true)
    }

    /// `other / self`, element by element.
    pub fn div_i32_rhs(&self, other: i32) -> (r: Result<PySeries, PyPolarsEr>)
        ensures
            scalar_outcome(r, self@, DType::Int32, ArithOp::Div, other as int, true),
    {
        self.arith_scalar(DType::Int32, ArithOp::Div, other as i64, true)
    }

    /// `other / self`, element by element.
    pub fn div_i64_rhs(&self, other: i64) -> (r: Result<PySeries, PyPolarsEr>)
        ensures
            scalar_outcome(r, self@, DType::Int64, ArithOp::Div, other as int, true),
    {
        self.arith_scalar(DType::Int64, ArithOp::Div, other as i64, true)
    }

    /// `other * self`, element by element.
    pub fn mul_u32_rhs(&self, other: u32) -> (r: Result<PySeries, PyPolarsEr>)
        ensures
            scalar_outcome(r, self@, DType::UInt32, ArithOp::Mul, other as int, true),
    {
        self.arith_scalar(DType::UInt32, ArithOp::Mul, other as i64, true)
    }

    /// `other * self`, element by element.
    pub fn mul_i32_rhs(&self, other: i32) -> (r: Result<PySeries, PyPolarsEr>)
        ensures
            scalar_outcome(r, self@, DType::Int32, ArithOp::Mul, other as int, true),
    {
        self.arith_scalar(DType::Int32, ArithOp::Mul, other as i64, true)
    }

    /// `other * self`, element by element.
    pub fn mul_i64_rhs(&self, other: i64) -> (r: Result<PySeries, PyPolarsEr>)
        ensures
            scalar_outcome(r, self@, DType::Int64, ArithOp::Mul, other as int, true),
    {
        self.arith_scalar(DType::Int64, ArithOp::Mul, other as i64, true)
    }
}

} // verus!
