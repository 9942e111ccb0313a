//! The series: construction, metadata and the structural operations.

use crate::dtype::DType;
use crate::engine::{
    series_append, series_cells, series_chunks, series_clone, series_dtype, series_filter,
    series_into_date, series_into_datetime_ms, series_into_duration_ns, series_into_time,
    series_is_null, series_label, series_len, series_n_chunks, series_name, series_null_count,
    series_of_bool, series_of_i32, series_of_i64, series_of_str, series_of_u32, series_rename,
    series_slice, series_tag, series_take,
};
use crate::error::PyPolarsEr;
use crate::model::{
    cells_of_bool, cells_of_i32, cells_of_i64, cells_of_str, cells_of_u32, gather, in_bounds,
    keep, null_count, null_mask, Scalar, SeriesView, MAX_LEN,
};
use polars::prelude::Series;
use vstd::prelude::*;

verus! {

/// Number of elements that `head` and `tail` return when none is asked for.
pub const DEFAULT_ROWS: usize = 10;

/// A named, typed column of nullable values.
pub struct PySeries {
    pub series: Series,
}

impl View for PySeries {
    type V = SeriesView;

    open spec fn view(&self) -> SeriesView {
        SeriesView {
            name: series_label(self.series),
            dtype: series_tag(self.series),
            cells: series_cells(self.series),
        }
    }
}

impl Clone for PySeries {
    /// An independent value with the same name, kind and elements.
    fn clone(&self) -> (r: Self)
        ensures
            r == *self,
    {
        PySeries { series: series_clone(&self.series) }
    }
}

/// Whether a series is short enough for the kernels of the engine.
pub open spec fn fits(v: SeriesView) -> bool {
    v.cells.len() <= MAX_LEN
}

/// What the test of two operands returns: they must carry one kind of the
/// closed set and be equally long, and that within `MAX_LEN`.
pub open spec fn match_outcome(r: Result<(), PyPolarsEr>, a: SeriesView, b: SeriesView) -> bool {
    if a.dtype != b.dtype || a.dtype == DType::Other {
        r matches Err(PyPolarsEr::TypeMismatch)
    } else if a.cells.len() != b.cells.len() {
        r matches Err(PyPolarsEr::LengthMismatch)
    } else if !fits(a) {
        r matches Err(PyPolarsEr::TooLong)
    } else {
        r is Ok
    }
}

/// Tests whether two series can be operands of one elementwise operation.
pub fn operands_match(a: &PySeries, b: &PySeries) -> (r: Result<(), PyPolarsEr>)
    ensures
        match_outcome(r, a@, b@),
{
    let t = series_dtype(&a.series);
    if t != series_dtype(&b.series) || t == DType::Other {
        return Err(PyPolarsEr::TypeMismatch);
    }
    let n = series_len(&a.series);
    if n != series_len(&b.series) {
        return Err(PyPolarsEr::LengthMismatch);
    }
    if n > MAX_LEN {
        return Err(PyPolarsEr::TooLong);
    }
    Ok(())
}

/// `v` with another sequence of elements.
pub open spec fn with_cells(v: SeriesView, cells: Seq<Option<Scalar>>) -> SeriesView {
    SeriesView { name: v.name, dtype: v.dtype, cells }
}

/// Each value of `v`, marked as present.
pub open spec fn all_some<T>(v: Seq<T>) -> Seq<Option<T>> {
    Seq::new(v.len(), |i: int| Some(v[i]))
}

/// Marks every value of `v` as present.
pub fn present<T: Copy>(v: &Vec<T>) -> (r: Vec<Option<T>>)
    ensures
        r@ == all_some(v@),
{
    let mut out: Vec<Option<T>> = Vec::with_capacity(v.len());
    let mut i: usize = 0;
    while i < v.len()
        invariant
            i <= v.len(),
            out@.len() == i,
            forall|j: int| 0 <= j < i ==> out@[j] == Some(v@[j]),
        decreases v.len() - i,
    {
        out.push(Some(v[i]));
        i += 1;
    }
    assert(out@ =~= all_some(v@));
    out
}

impl PySeries {
    pub fn new(series: Series) -> (r: Self)
        ensures
            r.series == series,
    {
        PySeries { series }
    }

    /// A series of 32-bit signed integers without nulls.
    pub fn new_i32(name: &str, val: Vec<i32>) -> (r: PySeries)
        requires
            val@.len() <= MAX_LEN,
        ensures
            r@ == (SeriesView {
                name: name@,
                dtype: DType::Int32,
                cells: cells_of_i32(all_some(val@)),
            }),
    {
        PySeries { series: series_of_i32(name, &present(&val)) }
    }

    /// A series of 32-bit signed integers; `None` is a null.
    pub fn new_opt_i32(name: &str, val: Vec<Option<i32>>) -> (r: PySeries)
        requires
            val@.len() <= MAX_LEN,
        ensures
            r@ == (SeriesView { name: name@, dtype: DType::Int32, cells: cells_of_i32(val@) }),
    {
        PySeries { series: series_of_i32(name, &val) }
    }

    /// A series of 64-bit signed integers without nulls.
    pub fn new_i64(name: &str, val: Vec<i64>) -> (r: PySeries)
        requires
            val@.len() <= MAX_LEN,
        ensures
            r@ == (SeriesView {
                name: name@,
                dtype: DType::Int64,
                cells: cells_of_i64(all_some(val@)),
            }),
    {
        PySeries { series: series_of_i64(name, &present(&val)) }
    }

    /// A series of 64-bit signed integers; `None` is a null.
    pub fn new_opt_i64(name: &str, val: Vec<Option<i64>>) -> (r: PySeries)
        requires
            val@.len() <= MAX_LEN,
        ensures
            r@ == (SeriesView { name: name@, dtype: DType::Int64, cells: cells_of_i64(val@) }),
    {
        PySeries { series: series_of_i64(name, &val) }
    }

    /// A series of 32-bit unsigned integers without nulls.
    pub fn new_u32(name: &str, val: Vec<u32>) -> (r: PySeries)
        requires
            val@.len() <= MAX_LEN,
        ensures
            r@ == (SeriesView {
                name: name@,
                dtype: DType::UInt32,
                cells: cells_of_u32(all_some(val@)),
            }),
    {
        PySeries { series: series_of_u32(name, &present(&val)) }
    }

    /// A series of 32-bit unsigned integers; `None` is a null.
    pub fn new_opt_u32(name: &str, val: Vec<Option<u32>>) -> (r: PySeries)
        requires
            val@.len() <= MAX_LEN,
        ensures
            r@ == (SeriesView { name: name@, dtype: DType::UInt32, cells: cells_of_u32(val@) }),
    {
        PySeries { series: series_of_u32(name, &val) }
    }

    /// A series of booleans without nulls.
    pub fn new_bool(name: &str, val: Vec<bool>) -> (r: PySeries)
        requires
            val@.len() <= MAX_LEN,
        ensures
            r@ == (SeriesView {
                name: name@,
                dtype: DType::Boolean,
                cells: cells_of_bool(all_some(val@)),
            }),
    {
        PySeries { series: series_of_bool(name, &present(&val)) }
    }

    /// A series of booleans; `None` is a null.
    pub fn new_opt_bool(name: &str, val: Vec<Option<bool>>) -> (r: PySeries)
        requires
            val@.len() <= MAX_LEN,
        ensures
            r@ == (SeriesView { name: name@, dtype: DType::Boolean, cells: cells_of_bool(val@) }),
    {
        PySeries { series: series_of_bool(name, &val) }
    }

    /// A series of strings without nulls.
    pub fn new_str(name: &str, val: Vec<&str>) -> (r: PySeries)
        requires
            val@.len() <= MAX_LEN,
        ensures
            r@ == (SeriesView {
                name: name@,
                dtype: DType::String,
                cells: cells_of_str(all_some(val@)),
            }),
    {
        PySeries { series: series_of_str(name, &present(&val)) }
    }

    /// A series of strings; `None` is a null.
    pub fn new_opt_str(name: &str, val: Vec<Option<&str>>) -> (r: PySeries)
        requires
            val@.len() <= MAX_LEN,
        ensures
            r@ == (SeriesView { name: name@, dtype: DType::String, cells: cells_of_str(val@) }),
    {
        PySeries { series: series_of_str(name, &val) }
    }

    /// A series of dates, each given as days since the epoch.
    pub fn new_date32(name: &str, val: Vec<i32>) -> (r: PySeries)
        requires
            val@.len() <= MAX_LEN,
        ensures
            r@ == (SeriesView {
                name: name@,
                dtype: DType::Date32,
                cells: cells_of_i32(all_some(val@)),
            }),
    {
        PySeries { series: series_into_date(series_of_i32(name, &present(&val))) }
    }

    /// A series of dates, each given as milliseconds since the epoch.
    pub fn new_date64(name: &str, val: Vec<i64>) -> (r: PySeries)
        requires
            val@.len() <= MAX_LEN,
        ensures
            r@ == (SeriesView {
                name: name@,
                dtype: DType::Date64,
                cells: cells_of_i64(all_some(val@)),
            }),
    {
        PySeries { series: series_into_datetime_ms(series_of_i64(name, &present(&val))) }
    }

    /// A series of durations in nanoseconds.
    pub fn new_duration_ns(name: &str, val: Vec<i64>) -> (r: PySeries)
        requires
            val@.len() <= MAX_LEN,
        ensures
            r@ == (SeriesView {
                name: name@,
                dtype: DType::DurationNs,
                cells: cells_of_i64(all_some(val@)),
            }),
    {
        PySeries { series: series_into_duration_ns(series_of_i64(name, &present(&val))) }
    }

    /// A series of times of day, each given as nanoseconds since midnight.
    pub fn new_time_ns(name: &str, val: Vec<i64>) -> (r: PySeries)
        requires
            val@.len() <= MAX_LEN,
        ensures
            r@ == (SeriesView {
                name: name@,
                dtype: DType::TimeNs,
                cells: cells_of_i64(all_some(val@)),
            }),
    {
        PySeries { series: series_into_time(series_of_i64(name, &present(&val))) }
    }

    pub fn name(&self) -> (r: &str)
        ensures
            r@ == self@.name,
    {
        series_name(&self.series)
    }

    /// Gives the series another name; kind and elements stay.
    pub fn rename(&mut self, name: &str)
        ensures
            final(self)@ == (SeriesView { name: name@, dtype: old(self)@.dtype, cells: old(self)@.cells }),
            final(self).chunks() == old(self).chunks(),
    {
        series_rename(&mut self.series, name);
    }

    /// The tag of the element kind.
    pub fn tag(&self) -> (r: DType)
        ensures
            r == self@.dtype,
    {
        series_dtype(&self.series)
    }

    /// The element kind as its stable textual identifier.
    pub fn dtype(&self) -> (r: &'static str)
        ensures
            r@ == self@.dtype.name(),
    {
        series_dtype(&self.series).to_str()
    }

    /// Number of physical segments; no other result depends on it.
    pub open spec fn chunks(&self) -> nat {
        series_chunks(self.series)
    }

    pub fn n_chunks(&self) -> (r: usize)
        ensures
            r == self.chunks(),
    {
        series_n_chunks(&self.series)
    }

    pub fn len(&self) -> (r: usize)
        ensures
            r == self@.cells.len(),
    {
        series_len(&self.series)
    }

    /// Whether the series holds at least one element that is not null.
    pub fn has_values(&self) -> (r: bool)
        ensures
            r == (null_count(self@.cells) != self@.cells.len()),
    {
        series_null_count(&self.series) != series_len(&self.series)
    }

    /// Tests whether the series can be the operand of an operation on the
    /// kind `kind`: `TypeMismatch` unless it carries that kind, else `TooLong`
    /// if it has more than `MAX_LEN` elements.
    pub fn operand_of(&self, kind: DType) -> (r: Result<(), PyPolarsEr>)
        ensures
            self@.dtype != kind ==> r matches Err(PyPolarsEr::TypeMismatch),
            self@.dtype == kind && !fits(self@) ==> r matches Err(PyPolarsEr::TooLong),
            self@.dtype == kind && fits(self@) ==> r is Ok,
    {
        if series_dtype(&self.series) != kind {
            return Err(PyPolarsEr::TypeMismatch);
        }
        if series_len(&self.series) > MAX_LEN {
            return Err(PyPolarsEr::TooLong);
        }
        Ok(())
    }

    /// The first `min(num_elements, length)` elements; `TooLong` for a series
    /// of more than `MAX_LEN` elements.
    pub fn limit(&self, num_elements: usize) -> (r: Result<Self, PyPolarsEr>)
        ensures
            !fits(self@) ==> r matches Err(PyPolarsEr::TooLong),
            fits(self@) ==> (r matches Ok(out) && out@ == with_cells(
                self@,
                self@.cells.subrange(
                    0,
                    if num_elements <= self@.cells.len() {
                        num_elements as int
                    } else {
                        self@.cells.len() as int
                    },
                ),
            )),
    {
        let n = series_len(&self.series);
        if n > MAX_LEN {
            return Err(PyPolarsEr::TooLong);
        }
        let k = if num_elements <= n { num_elements } else { n };
        Ok(PySeries { series: series_slice(&self.series, 0, k) })
    }

    /// The elements `[offset, offset + length)`; `OutOfBounds` if that window
    /// reaches past the end, else `TooLong` for a series of more than `MAX_LEN`
    /// elements.
    pub fn slice(&self, offset: usize, length: usize) -> (r: Result<Self, PyPolarsEr>)
        ensures
            offset + length > self@.cells.len() ==> r matches Err(PyPolarsEr::OutOfBounds),
            offset + length <= self@.cells.len() && !fits(self@) ==> r matches Err(
                PyPolarsEr::TooLong,
            ),
            offset + length <= self@.cells.len() && fits(self@) ==> (r matches Ok(out) && out@
                == with_cells(self@, self@.cells.subrange(offset as int, offset + length))),
    {
        let n = series_len(&self.series);
        if offset > n || length > n - offset {
            return Err(PyPolarsEr::OutOfBounds);
        }
        if n > MAX_LEN {
            return Err(PyPolarsEr::TooLong);
        }
        Ok(PySeries { series: series_slice(&self.series, offset, length) })
    }

    /// The first `length` elements (ten if `length` is `None`), or all of them
    /// if there are fewer; `TooLong` for a series of more than `MAX_LEN`
    /// elements.
    pub fn head(&self, length: Option<usize>) -> (r: Result<Self, PyPolarsEr>)
        ensures
            !fits(self@) ==> r matches Err(PyPolarsEr::TooLong),
            fits(self@) ==> (r matches Ok(out) && out@ == with_cells(
                self@,
                self@.cells.subrange(0, window(length, self@.cells.len()) as int),
            )),
    {
        let n = series_len(&self.series);
        if n > MAX_LEN {
            return Err(PyPolarsEr::TooLong);
        }
        let k = rows(length, n);
        Ok(PySeries { series: series_slice(&self.series, 0, k) })
    }

    /// The last `length` elements (ten if `length` is `None`), or all of them
    /// if there are fewer; `TooLong` for a series of more than `MAX_LEN`
    /// elements.
    pub fn tail(&self, length: Option<usize>) -> (r: Result<Self, PyPolarsEr>)
        ensures
            !fits(self@) ==> r matches Err(PyPolarsEr::TooLong),
            fits(self@) ==> (r matches Ok(out) && out@ == with_cells(
                self@,
                self@.cells.subrange(
                    self@.cells.len() - window(length, self@.cells.len()),
                    self@.cells.len() as int,
                ),
            )),
    {
        let n = series_len(&self.series);
        if n > MAX_LEN {
            return Err(PyPolarsEr::TooLong);
        }
        let k = rows(length, n);
        Ok(PySeries { series: series_slice(&self.series, n - k, k) })
    }

    /// Puts the elements of `other` behind those of `self`.
    ///
    /// Fails with `TypeMismatch` unless both carry the same kind of the closed
    /// set, else with `TooLong` if the joint length is more than `MAX_LEN`. On
    /// failure `self` holds what it held before.
    pub fn append(&mut self, other: &PySeries) -> (r: Result<(), PyPolarsEr>)
        ensures
            final(self)@.name == old(self)@.name,
            final(self)@.dtype == old(self)@.dtype,
            r is Err ==> final(self)@.cells == old(self)@.cells,
            old(self)@.dtype != other@.dtype || other@.dtype == DType::Other ==> r matches Err(
                PyPolarsEr::TypeMismatch,
            ),
            old(self)@.dtype == other@.dtype && other@.dtype != DType::Other && old(
                self,
            )@.cells.len() + other@.cells.len() > MAX_LEN ==> r matches Err(PyPolarsEr::TooLong),
            old(self)@.dtype == other@.dtype && other@.dtype != DType::Other && old(
                self,
            )@.cells.len() + other@.cells.len() <= MAX_LEN ==> r is Ok && final(self)@.cells
                == old(self)@.cells + other@.cells,
    {
        let mine = series_dtype(&self.series);
        let theirs = series_dtype(&other.series);
        if mine != theirs || theirs == DType::Other {
            return Err(PyPolarsEr::TypeMismatch);
        }
        let n = series_len(&self.series);
        let m = series_len(&other.series);
        if n > MAX_LEN || m > MAX_LEN - n {
            return Err(PyPolarsEr::TooLong);
        }
        match series_append(&mut self.series, &other.series) {
            Ok(()) => Ok(()),
            Err(e) => Err(PyPolarsEr::from(e)),
        }
    }

    /// The elements at which `filter` holds a non-null `true`, in order.
    ///
    /// Fails with `TypeMismatch` unless `filter` is boolean and `self` carries
    /// a kind of the closed set, else with `LengthMismatch` unless both are
    /// equally long, else with `TooLong` if they have more than `MAX_LEN`
    /// elements.
    pub fn filter(&self, filter: &PySeries) -> (r: Result<Self, PyPolarsEr>)
        ensures
            filter@.dtype != DType::Boolean || self@.dtype == DType::Other ==> r matches Err(
                PyPolarsEr::TypeMismatch,
            ),
            filter@.dtype == DType::Boolean && self@.dtype != DType::Other && filter@.cells.len()
                != self@.cells.len() ==> r matches Err(PyPolarsEr::LengthMismatch),
            filter@.dtype == DType::Boolean && self@.dtype != DType::Other && filter@.cells.len()
                == self@.cells.len() && !fits(self@) ==> r matches Err(PyPolarsEr::TooLong),
            filter@.dtype == DType::Boolean && self@.dtype != DType::Other && filter@.cells.len()
                == self@.cells.len() && fits(self@) ==> (r matches Ok(out) && out@ == with_cells(
                self@,
                keep(self@.cells, filter@.cells),
            )),
    {
        if series_dtype(&filter.series) != DType::Boolean || series_dtype(&self.series)
            == DType::Other {
            return Err(PyPolarsEr::TypeMismatch);
        }
        let n = series_len(&self.series);
        if series_len(&filter.series) != n {
            return Err(PyPolarsEr::LengthMismatch);
        }
        if n > MAX_LEN {
            return Err(PyPolarsEr::TooLong);
        }
        match series_filter(&self.series, &filter.series) {
            Ok(series) => Ok(PySeries { series }),
            Err(e) => Err(PyPolarsEr::from(e)),
        }
    }

    /// Gather: `result[i] = self[indices[i]]`.
    ///
    /// Fails with `TypeMismatch` if `self` carries no kind of the closed set,
    /// else with `OutOfBounds` if some index is not below the length, else
    /// with `TooLong` if `self` or `indices` has more than `MAX_LEN` elements.
    pub fn take(&self, indices: Vec<usize>) -> (r: Result<Self, PyPolarsEr>)
        ensures
            self@.dtype == DType::Other ==> r matches Err(PyPolarsEr::TypeMismatch),
            self@.dtype != DType::Other && !in_bounds(indices@, self@.cells.len()) ==> r matches Err(
                PyPolarsEr::OutOfBounds,
            ),
            self@.dtype != DType::Other && in_bounds(indices@, self@.cells.len()) && (!fits(self@)
                || indices@.len() > MAX_LEN) ==> r matches Err(PyPolarsEr::TooLong),
            self@.dtype != DType::Other && in_bounds(indices@, self@.cells.len()) && fits(self@)
                && indices@.len() <= MAX_LEN ==> (r matches Ok(out) && out@ == with_cells(
                self@,
                gather(self@.cells, indices@),
            )),
    {
        if series_dtype(&self.series) == DType::Other {
            return Err(PyPolarsEr::TypeMismatch);
        }
        let n = series_len(&self.series);
        if !all_below(&indices, n) {
            return Err(PyPolarsEr::OutOfBounds);
        }
        if n > MAX_LEN || indices.len() > MAX_LEN {
            return Err(PyPolarsEr::TooLong);
        }
        match series_take(&self.series, &indices) {
            Ok(series) => Ok(PySeries { series }),
            Err(e) => Err(PyPolarsEr::from(e)),
        }
    }

    pub fn null_count(&self) -> (r: Result<usize, PyPolarsEr>)
        ensures
            r matches Ok(n) && n == null_count(self@.cells),
    {
        Ok(series_null_count(&self.series))
    }

    /// A boolean mask under the same name: `true` where `self` is null;
    /// `TooLong` for a series of more than `MAX_LEN` elements.
    pub fn is_null(&self) -> (r: Result<PySeries, PyPolarsEr>)
        ensures
            !fits(self@) ==> r matches Err(PyPolarsEr::TooLong),
            fits(self@) ==> (r matches Ok(out) && out@ == (SeriesView {
                name: self@.name,
                dtype: DType::Boolean,
                cells: null_mask(self@.cells),
            })),
    {
        if series_len(&self.series) > MAX_LEN {
            return Err(PyPolarsEr::TooLong);
        }
        Ok(PySeries { series: series_is_null(&self.series) })
    }
}

/// Number of rows that `head` and `tail` return from a series of length `n`.
pub open spec fn window(length: Option<usize>, n: nat) -> nat {
    let want = match length {
        Some(k) => k as nat,
        None => DEFAULT_ROWS as nat,
    };
    if want <= n {
        want
    } else {
        n
    }
}

fn rows(length: Option<usize>, n: usize) -> (k: usize)
    ensures
        k == window(length, n as nat),
        k <= n,
{
    let want = match length {
        Some(k) => k,
        None => DEFAULT_ROWS,
    };
    if want <= n {
        want
    } else {
        n
    }
}

/// Whether every index is below `n`.
pub fn all_below(indices: &Vec<usize>, n: usize) -> (r: bool)
    ensures
        r == in_bounds(indices@, n as nat),
{
    let mut i: usize = 0;
    while i < indices.len()
        invariant
            i <= indices.len(),
            forall|j: int| 0 <= j < i ==> (#[trigger] indices@[j]) < n,
        decreases indices.len() - i,
    {
        if indices[i] >= n {
            return false;
        }
        i += 1;
    }
    true
}

} // verus!
