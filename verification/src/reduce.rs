//! Null-aware aggregation of numeric series: sum and minimum, one function
//! per numeric kind.

use crate::dtype::DType;
use crate::engine_arith::{series_min, series_sum};
use crate::error::PyPolarsEr;
use crate::model::{min_of, sum_spec};
use crate::series::{fits, PySeries};
use vstd::prelude::*;

verus! {

/// An optional machine integer as an optional mathematical one.
pub open spec fn widen(v: Option<i64>) -> Option<int> {
    match v {
        Some(x) => Some(x as int),
        None => None,
    }
}

impl PySeries {
    /// The sum of the non-null elements of a series of kind `kind`, wrapped
    /// into that kind; `None` if there is no such element.
    fn total(&self, kind: DType) -> (r: Result<Option<i64>, PyPolarsEr>)
        requires
            kind.numeric(),
        ensures
            self@.dtype != kind ==> r matches Err(PyPolarsEr::TypeMismatch),
            self@.dtype == kind && !fits(self@) ==> r matches Err(PyPolarsEr::TooLong),
            self@.dtype == kind && fits(self@) ==> (r matches Ok(v) && widen(v) == sum_spec(
                kind,
                self@.cells,
            )),
    {
        match self.operand_of(kind) {
            Ok(()) => {},
            Err(e) => {
                return Err(e);
            },
        }
        if !self.has_values() {
            return Ok(None);
        }
        match series_sum(&self.series) {
            Ok(v) => Ok(Some(v)),
            Err(e) => Err(PyPolarsEr::from(e)),
        }
    }

    /// The least non-null element of a series of kind `kind`; `None` if there
    /// is no such element.
    fn least(&self, kind: DType) -> (r: Result<Option<i64>, PyPolarsEr>)
        requires
            kind.numeric(),
        ensures
            self@.dtype != kind ==> r matches Err(PyPolarsEr::TypeMismatch),
            self@.dtype == kind && !fits(self@) ==> r matches Err(PyPolarsEr::TooLong),
            self@.dtype == kind && fits(self@) ==> (r matches Ok(v) && widen(v) == min_of(
                self@.cells,
            ) && (v matches Some(x) ==> kind.holds(x as int))),
    {
        match self.operand_of(kind) {
            Ok(()) => {},
            Err(e) => {
                return Err(e);
            },
        }
        match series_min(&self.series) {
            Ok(v) => Ok(v),
            Err(e) => Err(PyPolarsEr::from(e)),
        }
    }

    /// Sum of a `u32` series of at most `MAX_LEN` elements; it wraps around on
    /// overflow.
    pub fn sum_u32(&self) -> (r: Result<Option<u32>, PyPolarsEr>)
        ensures
            self@.dtype != DType::UInt32 ==> r matches Err(PyPolarsEr::TypeMismatch),
            self@.dtype == DType::UInt32 && !fits(self@) ==> r matches Err(PyPolarsEr::TooLong),
            self@.dtype == DType::UInt32 && fits(self@) ==> (r matches Ok(v) && match v {
                Some(x) => sum_spec(DType::UInt32, self@.cells) == Some(x as int),
                None => sum_spec(DType::UInt32, self@.cells) is None,
            }),
    {
        match self.total(DType::UInt32) {
            Ok(Some(x)) => Ok(Some(x as u32)),
            Ok(None) => Ok(None),
            Err(e) => Err(e),
        }
    }

    /// Sum of an `i32` series; it wraps around on overflow.
    pub fn sum_i32(&self) -> (r: Result<Option<i32>, PyPolarsEr>)
        ensures
            self@.dtype != DType::Int32 ==> r matches Err(PyPolarsEr::TypeMismatch),
            self@.dtype == DType::Int32 && !fits(self@) ==> r matches Err(PyPolarsEr::TooLong),
            self@.dtype == DType::Int32 && fits(self@) ==> (r matches Ok(v) && match v {
                Some(x) => sum_spec(DType::Int32, self@.cells) == Some(x as int),
                None => sum_spec(DType::Int32, self@.cells) is None,
            }),
    {
        match self.total(DType::Int32) {
            Ok(Some(x)) => Ok(Some(x as i32)),
            Ok(None) => Ok(None),
            Err(e) => Err(e),
        }
    }

    /// Sum of an `i64` series; it wraps around on overflow.
    pub fn sum_i64(&self) -> (r: Result<Option<i64>, PyPolarsEr>)
        ensures
            self@.dtype != DType::Int64 ==> r matches Err(PyPolarsEr::TypeMismatch),
            self@.dtype == DType::Int64 && !fits(self@) ==> r matches Err(PyPolarsEr::TooLong),
            self@.dtype == DType::Int64 && fits(self@) ==> (r matches Ok(v) && match v {
                Some(x) => sum_spec(DType::Int64, self@.cells) == Some(x as int),
                None => sum_spec(DType::Int64, self@.cells) is None,
            }),
    {
        self.total(DType::Int64)
    }

    /// Minimum of a `u32` series.
    pub fn min_u32(&self) -> (r: Result<Option<u32>, PyPolarsEr>)
        ensures
            self@.dtype != DType::UInt32 ==> r matches Err(PyPolarsEr::TypeMismatch),
            self@.dtype == DType::UInt32 && !fits(self@) ==> r matches Err(PyPolarsEr::TooLong),
            self@.dtype == DType::UInt32 && fits(self@) ==> (r matches Ok(v) && match v {
                Some(x) => min_of(self@.cells) == Some(x as int),
                None => min_of(self@.cells) is None,
            }),
    {
        match self.least(DType::UInt32) {
            Ok(Some(x)) => Ok(Some(x as u32)),
            Ok(None) => Ok(None),
            Err(e) => Err(e),
        }
    }

    /// Minimum of an `i32` series.
    pub fn min_i32(&self) -> (r: Result<Option<i32>, PyPolarsEr>)
        ensures
            self@.dtype != DType::Int32 ==> r matches Err(PyPolarsEr::TypeMismatch),
            self@.dtype == DType::Int32 && !fits(self@) ==> r matches Err(PyPolarsEr::TooLong),
            self@.dtype == DType::Int32 && fits(self@) ==> (r matches Ok(v) && match v {
                Some(x) => min_of(self@.cells) == Some(x as int),
                None => min_of(self@.cells) is None,
            }),
    {
        match self.least(DType::Int32) {
            Ok(Some(x)) => Ok(Some(x as i32)),
            Ok(None) => Ok(None),
            Err(e) => Err(e),
        }
    }

    /// Minimum of an `i64` series.
    pub fn min_i64(&self) -> (r: Result<Option<i64>, PyPolarsEr>)
        ensures
            self@.dtype != DType::Int64 ==> r matches Err(PyPolarsEr::TypeMismatch),
            self@.dtype == DType::Int64 && !fits(self@) ==> r matches Err(PyPolarsEr::TooLong),
            self@.dtype == DType::Int64 && fits(self@) ==> (r matches Ok(v) && match v {
                Some(x) => min_of(self@.cells) == Some(x as int),
                None => min_of(self@.cells) is None,
            }),
    {
        match self.least(DType::Int64) {
            Ok(v) => Ok(v),
            Err(e) => Err(e),
        }
    }
}

} // verus!
