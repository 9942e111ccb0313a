//! Comparison: the six elementwise relations, series with series and series
//! with a scalar of each numeric kind, and equality of two series as wholes.

use crate::dtype::DType;
use crate::engine::{series_dtype, series_equals_missing, series_len};
use crate::model::MAX_LEN;
use crate::engine_relate::{
    series_eq, series_eq_scalar, series_gt, series_gt_eq, series_gt_eq_scalar, series_gt_scalar,
    series_lt, series_lt_eq, series_lt_eq_scalar, series_lt_scalar, series_neq,
    series_neq_scalar,
};
use crate::error::PyPolarsEr;
use crate::model::{fill, relate_cells, same_data, Relation, SeriesView};
use crate::series::{fits, operands_match, PySeries};
use vstd::prelude::*;

verus! {

/// What `a rel b` returns: a boolean series as long as the operands, under the
/// name of `a`, null wherever either operand is null. Both operands must carry
/// the same modelled kind, be equally long and have no more than `MAX_LEN`
/// elements.
pub open spec fn relate_outcome(
    r: Result<PySeries, PyPolarsEr>,
    a: SeriesView,
    b: SeriesView,
    rel: Relation,
) -> bool {
    if !a.dtype.modelled() || a.dtype != b.dtype {
        r matches Err(PyPolarsEr::TypeMismatch)
    } else if a.cells.len() != b.cells.len() {
        r matches Err(PyPolarsEr::LengthMismatch)
    } else if !fits(a) {
        r matches Err(PyPolarsEr::TooLong)
    } else {
        r matches Ok(out) && out@ == (SeriesView {
            name: a.name,
            dtype: DType::Boolean,
            cells: relate_cells(rel, a.cells, b.cells),
        })
    }
}

/// What `v rel x` returns for a scalar `x` of the numeric kind `kind`.
pub open spec fn relate_scalar_outcome(
    r: Result<PySeries, PyPolarsEr>,
    v: SeriesView,
    kind: DType,
    rel: Relation,
    x: int,
) -> bool {
    if v.dtype != kind {
        r matches Err(PyPolarsEr::TypeMismatch)
    } else if !fits(v) {
        r matches Err(PyPolarsEr::TooLong)
    } else {
        r matches Ok(out) && out@ == (SeriesView {
            name: v.name,
            dtype: DType::Boolean,
            cells: relate_cells(rel, v.cells, fill(v.cells.len(), x)),
        })
    }
}

/// What `series_equal` returns for `a` and `b`.
pub open spec fn equal_outcome(r: Result<bool, PyPolarsEr>, a: PySeries, b: PySeries) -> bool {
    if a@.dtype != b@.dtype {
        r matches Ok(false)
    } else if a@.dtype == DType::Other {
        r matches Err(PyPolarsEr::TypeMismatch)
    } else if a@.cells.len() != b@.cells.len() {
        r matches Ok(false)
    } else if !fits(a@) {
        r matches Err(PyPolarsEr::TooLong)
    } else {
        &&& r is Ok
        &&& (a == b ==> r == Ok::<bool, PyPolarsEr>(true))
        &&& (a@.dtype.modelled() ==> r == Ok::<bool, PyPolarsEr>(same_data(a@, b@)))
    }
}

impl PySeries {
    /// Dispatches `self rel rhs` to the kernel for `rel`.
    pub fn relate(&self, rhs: &PySeries, rel: Relation) -> (r: Result<PySeries, PyPolarsEr>)
        ensures
            relate_outcome(r, self@, rhs@, rel),
    {
        if !series_dtype(&self.series).is_modelled() {
            return Err(PyPolarsEr::TypeMismatch);
        }
        match operands_match(self, rhs) {
            Ok(()) => {},
            Err(e) => {
                return Err(e);
            },
        }
        let res = match rel {
            Relation::Eq => series_eq(&self.series, &rhs.series),
            Relation::Neq => series_neq(&self.series, &rhs.series),
            Relation::Gt => series_gt(&self.series, &rhs.series),
            Relation::GtEq => series_gt_eq(&self.series, &rhs.series),
            Relation::Lt => series_lt(&self.series, &rhs.series),
            Relation::LtEq => series_lt_eq(&self.series, &rhs.series),
        };
        match res {
            Ok(series) => Ok(PySeries { series }),
            Err(e) => Err(PyPolarsEr::from(e)),
        }
    }

    /// Dispatches `self rel x` to the kernel for `rel`, after checking that
    /// `self` carries the kind the scalar is of.
    fn relate_scalar(&self, kind: DType, rel: Relation, x: i64) -> (r: Result<
        PySeries,
        PyPolarsEr,
    >)
        requires
            kind.numeric(),
            kind.holds(x as int),
        ensures
            relate_scalar_outcome(r, self@, kind, rel, x as int),
    {
        match self.operand_of(kind) {
            Ok(()) => {},
            Err(e) => {
                return Err(e);
            },
        }
        let res = match rel {
            Relation::Eq => series_eq_scalar(&self.series, x),
            Relation::Neq => series_neq_scalar(&self.series, x),
            Relation::Gt => series_gt_scalar(&self.series, x),
            Relation::GtEq => series_gt_eq_scalar(&self.series, x),
            Relation::Lt => series_lt_scalar(&self.series, x),
            Relation::LtEq => series_lt_eq_scalar(&self.series, x),
        };
        match res {
            Ok(series) => Ok(PySeries { series }),
            Err(e) => Err(PyPolarsEr::from(e)),
        }
    }

    /// Whether both series carry the same kind and hold, position by position,
    /// the same element or a null on both sides. Names are not compared.
    ///
    /// Two series of different kinds or lengths are unequal. Otherwise the
    /// call fails with `TypeMismatch` if both carry the tag `Other`, under
    /// which different kinds hide, and with `TooLong` if they have more than
    /// `MAX_LEN` elements. Of two series of one floating-point kind it is
    /// stated only that a series equals itself.
    pub fn series_equal(&self, other: &PySeries) -> (r: Result<bool, PyPolarsEr>)
        ensures
            equal_outcome(r, *self, *other),
    {
        let t = series_dtype(&self.series);
        if t != series_dtype(&other.series) {
            return Ok(false);
        }
        if t == DType::Other {
            return Err(PyPolarsEr::TypeMismatch);
        }
        let n = series_len(&self.series);
        if n != series_len(&other.series) {
            return Ok(false);
        }
        if n > MAX_LEN {
            return Err(PyPolarsEr::TooLong);
        }
        Ok(series_equals_missing(&self.series, &other.series))
    }

    pub fn eq(&self, rhs: &PySeries) -> (r: Result<PySeries, PyPolarsEr>)
        ensures
            relate_outcome(r, self@, rhs@, Relation::Eq),
    {
        self.relate(rhs, Relation::Eq)
    }

    pub fn neq(&self, rhs: &PySeries) -> (r: Result<PySeries, PyPolarsEr>)
        ensures
            relate_outcome(r, self@, rhs@, Relation::Neq),
    {
        self.relate(rhs, Relation::Neq)
    }

    pub fn gt(&self, rhs: &PySeries) -> (r: Result<PySeries, PyPolarsEr>)
        ensures
            relate_outcome(r, self@, rhs@, Relation::Gt),
    {
        self.relate(rhs, Relation::Gt)
    }

    pub fn gt_eq(&self, rhs: &PySeries) -> (r: Result<PySeries, PyPolarsEr>)
        ensures
            relate_outcome(r, self@, rhs@, Relation::GtEq),
    {
        self.relate(rhs, Relation::GtEq)
    }

    pub fn lt(&self, rhs: &PySeries) -> (r: Result<PySeries, PyPolarsEr>)
        ensures
            relate_outcome(r, self@, rhs@, Relation::Lt),
    {
        self.relate(rhs, Relation::Lt)
    }

    pub fn lt_eq(&self, rhs: &PySeries) -> (r: Result<PySeries, PyPolarsEr>)
        ensures
            relate_outcome(r, self@, rhs@, Relation::LtEq),
    {
        self.relate(rhs, Relation::LtEq)
    }

    /// `self == rhs`, element by element.
    pub fn eq_u32(&self, rhs: u32) -> (r: Result<PySeries, PyPolarsEr>)
        ensures
            relate_scalar_outcome(r, self@, DType::UInt32, Relation::Eq, rhs as int),
    {
        self.relate_scalar(DType::UInt32, Relation::Eq, rhs as i64)
    }

    /// `self == rhs`, element by element.
    pub fn eq_i32(&self, rhs: i32) -> (r: Result<PySeries, PyPolarsEr>)
        ensures
            relate_scalar_outcome(r, self@, DType::Int32, Relation::Eq, rhs as int),
    {
        self.relate_scalar(DType::Int32, Relation::Eq, rhs as i64)
    }

    /// `self == rhs`, element by element.
    pub fn eq_i64(&self, rhs: i64) -> (r: Result<PySeries, PyPolarsEr>)
        ensures
            relate_scalar_outcome(r, self@, DType::Int64, Relation::Eq, rhs as int),
    {
        self.relate_scalar(DType::Int64, Relation::Eq, rhs as i64)
    }

    /// `self != rhs`, element by element.
    pub fn neq_u32(&self, rhs: u32) -> (r: Result<PySeries, PyPolarsEr>)
        ensures
            relate_scalar_outcome(r, self@, DType::UInt32, Relation::Neq, rhs as int),
    {
        self.relate_scalar(DType::UInt32, Relation::Neq, rhs as i64)
    }

    /// `self != rhs`, element by element.
    pub fn neq_i32(&self, rhs: i32) -> (r: Result<PySeries, PyPolarsEr>)
        ensures
            relate_scalar_outcome(r, self@, DType::Int32, Relation::Neq, rhs as int),
    {
        self.relate_scalar(DType::Int32, Relation::Neq, rhs as i64)
    }

    /// `self != rhs`, element by element.
    pub fn neq_i64(&self, rhs: i64) -> (r: Result<PySeries, PyPolarsEr>)
        ensures
            relate_scalar_outcome(r, self@, DType::Int64, Relation::Neq, rhs as int),
    {
        self.relate_scalar(DType::Int64, Relation::Neq, rhs as i64)
    }

    /// `self > rhs`, element by element.
    pub fn gt_u32(&self, rhs: u32) -> (r: Result<PySeries, PyPolarsEr>)
        ensures
            relate_scalar_outcome(r, self@, DType::UInt32, Relation::Gt, rhs as int),
    {
        self.relate_scalar(DType::UInt32, Relation::Gt, rhs as i64)
    }

    /// `self > rhs`, element by element.
    pub fn gt_i32(&self, rhs: i32) -> (r: Result<PySeries, PyPolarsEr>)
        ensures
            relate_scalar_outcome(r, self@, DType::Int32, Relation::Gt, rhs as int),
    {
        self.relate_scalar(DType::Int32, Relation::Gt, rhs as i64)
    }

    /// `self > rhs`, element by element.
    pub fn gt_i64(&self, rhs: i64) -> (r: Result<PySeries, PyPolarsEr>)
        ensures
            relate_scalar_outcome(r, self@, DType::Int64, Relation::Gt, rhs as int),
    {
        self.relate_scalar(DType::Int64, Relation::Gt, rhs as i64)
    }

    /// `self >= rhs`, element by element.
    pub fn gt_eq_u32(&self, rhs: u32) -> (r: Result<PySeries, PyPolarsEr>)
        ensures
            relate_scalar_outcome(r, self@, DType::UInt32, Relation::GtEq, rhs as int),
    {
        self.relate_scalar(DType::UInt32, Relation::GtEq, rhs as i64)
    }

    /// `self >= rhs`, element by element.
    pub fn gt_eq_i32(&self, rhs: i32) -> (r: Result<PySeries, PyPolarsEr>)
        ensures
            relate_scalar_outcome(r, self@, DType::Int32, Relation::GtEq, rhs as int),
    {
        self.relate_scalar(DType::Int32, Relation::GtEq, rhs as i64)
    }

    /// `self >= rhs`, element by element.
    pub fn gt_eq_i64(&self, rhs: i64) -> (r: Result<PySeries, PyPolarsEr>)
        ensures
            relate_scalar_outcome(r, self@, DType::Int64, Relation::GtEq, rhs as int),
    {
        self.relate_scalar(DType::Int64, Relation::GtEq, rhs as i64)
    }

    /// `self < rhs`, element by element.
    pub fn lt_u32(&self, rhs: u32) -> (r: Result<PySeries, PyPolarsEr>)
        ensures
            relate_scalar_outcome(r, self@, DType::UInt32, Relation::Lt, rhs as int),
    {
        self.relate_scalar(DType::UInt32, Relation::Lt, rhs as i64)
    }

    /// `self < rhs`, element by element.
    pub fn lt_i32(&self, rhs: i32) -> (r: Result<PySeries, PyPolarsEr>)
        ensures
            relate_scalar_outcome(r, self@, DType::Int32, Relation::Lt, rhs as int),
    {
        self.relate_scalar(DType::Int32, Relation::Lt, rhs as i64)
    }

    /// `self < rhs`, element by element.
    pub fn lt_i64(&self, rhs: i64) -> (r: Result<PySeries, PyPolarsEr>)
        ensures
            relate_scalar_outcome(r, self@, DType::Int64, Relation::Lt, rhs as int),
    {
        self.relate_scalar(DType::Int64, Relation::Lt, rhs as i64)
    }

    /// `self <= rhs`, element by element.
    pub fn lt_eq_u32(&self, rhs: u32) -> (r: Result<PySeries, PyPolarsEr>)
        ensures
            relate_scalar_outcome(r, self@, DType::UInt32, Relation::LtEq, rhs as int),
    {
        self.relate_scalar(DType::UInt32, Relation::LtEq, rhs as i64)
    }

    /// `self <= rhs`, element by element.
    pub fn lt_eq_i32(&self, rhs: i32) -> (r: Result<PySeries, PyPolarsEr>)
        ensures
            relate_scalar_outcome(r, self@, DType::Int32, Relation::LtEq, rhs as int),
    {
        self.relate_scalar(DType::Int32, Relation::LtEq, rhs as i64)
    }

    /// `self <= rhs`, element by element.
    pub fn lt_eq_i64(&self, rhs: i64) -> (r: Result<PySeries, PyPolarsEr>)
        ensures
            relate_scalar_outcome(r, self@, DType::Int64, Relation::LtEq, rhs as int),
    {
        self.relate_scalar(DType::Int64, Relation::LtEq, rhs as i64)
    }
}

} // verus!
