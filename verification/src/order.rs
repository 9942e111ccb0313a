//! Ordering: sorting in place, the permutation that sorts, and the positions
//! of first occurrences.
//!
//! The order is ascending with nulls last. The permutation is the stable one:
//! elements that compare equal are listed by position.

use crate::dtype::DType;
use crate::engine::{
    series_arg_sort, series_arg_unique, series_dtype, series_len, series_sort,
};
use crate::error::PyPolarsEr;
use crate::model::{
    ascending, first_occurrences, gather, in_bounds, is_permutation, sorted, tie_stable, MAX_LEN,
};
use crate::series::{fits, PySeries};
use vstd::prelude::*;

verus! {

impl PySeries {
    /// Sorts the elements in place: ascending, nulls last.
    ///
    /// Fails, and leaves `self` as it is, with `TypeMismatch` if `self` carries
    /// no kind of the closed set, else with `TooLong` if it has more than
    /// `MAX_LEN` elements. Otherwise `self` holds the elements it held, each as
    /// often as before. For a modelled kind they are sorted, which fixes the
    /// result, as `laws::lemma_sorted_arrangement_is_unique` shows; for a
    /// floating-point kind they stand in the engine's order.
    pub fn sort(&mut self) -> (r: Result<(), PyPolarsEr>)
        ensures
            final(self)@.name == old(self)@.name,
            final(self)@.dtype == old(self)@.dtype,
            r is Err ==> *final(self) == *old(self),
            old(self)@.dtype == DType::Other ==> r matches Err(PyPolarsEr::TypeMismatch),
            old(self)@.dtype != DType::Other && !fits(old(self)@) ==> r matches Err(
                PyPolarsEr::TooLong,
            ),
            old(self)@.dtype != DType::Other && fits(old(self)@) ==> r is Ok,
            r is Ok ==> final(self)@.cells.len() == old(self)@.cells.len()
                && final(self)@.cells.to_multiset() == old(self)@.cells.to_multiset(),
            r is Ok && old(self)@.dtype.modelled() ==> sorted(final(self)@.cells),
    {
        if series_dtype(&self.series) == DType::Other {
            return Err(PyPolarsEr::TypeMismatch);
        }
        if series_len(&self.series) > MAX_LEN {
            return Err(PyPolarsEr::TooLong);
        }
        match series_sort(&self.series, false, true, true) {
            Ok(series) => {
                self.series = series;
                Ok(())
            },
            Err(e) => Err(PyPolarsEr::from(e)),
        }
    }

    /// The positions of the elements in the order that `sort` puts them in,
    /// without changing `self`.
    ///
    /// Fails with `TypeMismatch` if `self` carries no kind of the closed set,
    /// else with `TooLong` if it has more than `MAX_LEN` elements. For a
    /// floating-point kind the result is a permutation in the engine's order.
    pub fn argsort(&self) -> (r: Result<Vec<usize>, PyPolarsEr>)
        ensures
            self@.dtype == DType::Other ==> r matches Err(PyPolarsEr::TypeMismatch),
            self@.dtype != DType::Other && !fits(self@) ==> r matches Err(PyPolarsEr::TooLong),
            self@.dtype != DType::Other && fits(self@) ==> (r matches Ok(idx) && is_permutation(
                idx@,
                self@.cells.len(),
            )),
            self@.dtype.modelled() && fits(self@) ==> (r matches Ok(idx) && sorted(
                gather(self@.cells, idx@),
            ) && tie_stable(self@.cells, idx@)),
    {
        if series_dtype(&self.series) == DType::Other {
            return Err(PyPolarsEr::TypeMismatch);
        }
        if series_len(&self.series) > MAX_LEN {
            return Err(PyPolarsEr::TooLong);
        }
        Ok(series_arg_sort(&self.series, false, true, true))
    }

    /// The position of the first occurrence of each distinct element, in
    /// ascending order; all nulls are one element.
    ///
    /// Fails with `TypeMismatch` if `self` carries no kind of the closed set,
    /// else with `TooLong` if it has more than `MAX_LEN` elements. For a
    /// floating-point kind the result is a list of ascending positions,
    /// chosen by the engine's notion of equal.
    pub fn arg_unique(&self) -> (r: Result<Vec<usize>, PyPolarsEr>)
        ensures
            self@.dtype == DType::Other ==> r matches Err(PyPolarsEr::TypeMismatch),
            self@.dtype != DType::Other && !fits(self@) ==> r matches Err(PyPolarsEr::TooLong),
            self@.dtype != DType::Other && fits(self@) ==> (r matches Ok(idx) && ascending(idx@)
                && in_bounds(idx@, self@.cells.len())),
            self@.dtype.modelled() && fits(self@) ==> (r matches Ok(idx) && idx@
                == first_occurrences(self@.cells)),
    {
        if series_dtype(&self.series) == DType::Other {
            return Err(PyPolarsEr::TypeMismatch);
        }
        if series_len(&self.series) > MAX_LEN {
            return Err(PyPolarsEr::TooLong);
        }
        match series_arg_unique(&self.series) {
            Ok(idx) => Ok(idx),
            Err(e) => Err(PyPolarsEr::from(e)),
        }
    }
}

} // verus!
