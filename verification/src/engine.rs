//! The boundary to `polars`: the two outside types, the names under which
//! contracts speak of what a `Series` holds, and one thin wrapper per `polars`
//! function that builds, inspects or reshapes a series.
//!
//! Nothing in this file is proved. Each wrapper's contract restates what the
//! source of `polars` 0.55 shows for the call in its body.
//!
//! Two habits of the engine shape these contracts. Its kernels panic on an
//! array of more than `MAX_LEN` elements, so every wrapper that runs one asks
//! for series within that length. And some kernels take a shortcut when a
//! series is flagged as sorted, a flag that any holder of a `Series` may set:
//! the wrappers around those kernels clear the flag on a copy first, so that
//! the result depends on the elements alone.

use crate::dtype::DType;
use crate::model::{
    ascending, cells_of_bool, cells_of_i32, cells_of_i64, cells_of_str, cells_of_u32,
    first_occurrences, gather, in_bounds, is_permutation, keep, null_count, null_mask, sorted,
    tie_stable, Scalar, MAX_LEN,
};
use polars::prelude::{
    DataType, IdxCa, IntoSeries, NamedFrom, PolarsError, Series, SortOptions, TimeUnit,
};
use polars::series::IsSorted;
use vstd::prelude::*;

verus! {

#[verifier::external_type_specification]
#[verifier::external_body]
pub struct ExSeries(polars::prelude::Series);

#[verifier::external_type_specification]
#[verifier::external_body]
pub struct ExPolarsError(polars::prelude::PolarsError);

/// The elements of a series in logical order, chunk boundaries erased.
pub uninterp spec fn series_cells(s: Series) -> Seq<Option<Scalar>>;

/// The element kind of a series.
pub uninterp spec fn series_tag(s: Series) -> DType;

/// The name a series carries.
pub uninterp spec fn series_label(s: Series) -> Seq<char>;

/// The number of physical segments a series is stored in.
pub uninterp spec fn series_chunks(s: Series) -> nat;

/// `Series::len`: the number of elements.
#[verifier::external_body]
pub(crate) fn series_len(s: &Series) -> (n: usize)
    ensures
        n == series_cells(*s).len(),
{
    s.len()
}

/// `Series::null_count`: the number of null elements over all chunks.
#[verifier::external_body]
pub(crate) fn series_null_count(s: &Series) -> (n: usize)
    ensures
        n == null_count(series_cells(*s)),
{
    s.null_count()
}

/// `Series::dtype`, mapped variant by variant onto the tag; every `DataType`
/// without a tag of its own is `Other`.
#[verifier::external_body]
pub(crate) fn series_dtype(s: &Series) -> (t: DType)
    ensures
        t == series_tag(*s),
{
    match s.dtype() {
        DataType::Int32 => DType::Int32,
        DataType::Int64 => DType::Int64,
        DataType::UInt32 => DType::UInt32,
        DataType::Float32 => DType::Float32,
        DataType::Float64 => DType::Float64,
        DataType::Boolean => DType::Boolean,
        DataType::String => DType::String,
        DataType::Date => DType::Date32,
        DataType::Datetime(TimeUnit::Milliseconds, None) => DType::Date64,
        DataType::Duration(TimeUnit::Nanoseconds) => DType::DurationNs,
        DataType::Time => DType::TimeNs,
        _ => DType::Other,
    }
}

/// `Series::name`, borrowed as a string slice.
#[verifier::external_body]
pub(crate) fn series_name<'a>(s: &'a Series) -> (r: &'a str)
    ensures
        r@ == series_label(*s),
{
    s.name().as_str()
}

/// `Series::rename`: replaces the name and touches nothing else.
#[verifier::external_body]
pub(crate) fn series_rename(s: &mut Series, name: &str)
    ensures
        series_label(*final(s)) == name@,
        series_cells(*final(s)) == series_cells(*old(s)),
        series_tag(*final(s)) == series_tag(*old(s)),
        series_chunks(*final(s)) == series_chunks(*old(s)),
{
    s.rename(name.into());
}

/// `Series::n_chunks`.
#[verifier::external_body]
pub(crate) fn series_n_chunks(s: &Series) -> (n: usize)
    ensures
        n == series_chunks(*s),
{
    s.n_chunks()
}

/// `Series::clone`: a second handle to the same value. The engine copies on
/// write, so later changes to either handle leave the other as it was.
#[verifier::external_body]
pub(crate) fn series_clone(s: &Series) -> (r: Series)
    ensures
        r == *s,
{
    s.clone()
}

/// `Series::new` on a slice of optional 32-bit signed integers.
#[verifier::external_body]
pub(crate) fn series_of_i32(name: &str, val: &Vec<Option<i32>>) -> (r: Series)
    requires
        val@.len() <= MAX_LEN,
    ensures
        series_tag(r) == DType::Int32,
        series_label(r) == name@,
        series_cells(r) == cells_of_i32(val@),
{
    Series::new(name.into(), val)
}

/// `Series::new` on a slice of optional 64-bit signed integers.
#[verifier::external_body]
pub(crate) fn series_of_i64(name: &str, val: &Vec<Option<i64>>) -> (r: Series)
    requires
        val@.len() <= MAX_LEN,
    ensures
        series_tag(r) == DType::Int64,
        series_label(r) == name@,
        series_cells(r) == cells_of_i64(val@),
{
    Series::new(name.into(), val)
}

/// `Series::new` on a slice of optional 32-bit unsigned integers.
#[verifier::external_body]
pub(crate) fn series_of_u32(name: &str, val: &Vec<Option<u32>>) -> (r: Series)
    requires
        val@.len() <= MAX_LEN,
    ensures
        series_tag(r) == DType::UInt32,
        series_label(r) == name@,
        series_cells(r) == cells_of_u32(val@),
{
    Series::new(name.into(), val)
}

/// `Series::new` on a slice of optional booleans.
#[verifier::external_body]
pub(crate) fn series_of_bool(name: &str, val: &Vec<Option<bool>>) -> (r: Series)
    requires
        val@.len() <= MAX_LEN,
    ensures
        series_tag(r) == DType::Boolean,
        series_label(r) == name@,
        series_cells(r) == cells_of_bool(val@),
{
    Series::new(name.into(), val)
}

/// `Series::new` on a slice of optional string slices.
#[verifier::external_body]
pub(crate) fn series_of_str(name: &str, val: &Vec<Option<&str>>) -> (r: Series)
    requires
        val@.len() <= MAX_LEN,
    ensures
        series_tag(r) == DType::String,
        series_label(r) == name@,
        series_cells(r) == cells_of_str(val@),
{
    Series::new(name.into(), val)
}

/// `Series::into_date`: reads 32-bit integers as days since the epoch. The
/// call panics on any other input kind, hence the precondition.
#[verifier::external_body]
pub(crate) fn series_into_date(s: Series) -> (r: Series)
    requires
        series_tag(s) == DType::Int32,
    ensures
        series_tag(r) == DType::Date32,
        series_label(r) == series_label(s),
        series_cells(r) == series_cells(s),
{
    s.into_date()
}

/// `Series::into_datetime` with millisecond unit and no time zone: reads
/// 64-bit integers as milliseconds since the epoch.
#[verifier::external_body]
pub(crate) fn series_into_datetime_ms(s: Series) -> (r: Series)
    requires
        series_tag(s) == DType::Int64,
    ensures
        series_tag(r) == DType::Date64,
        series_label(r) == series_label(s),
        series_cells(r) == series_cells(s),
{
    s.into_datetime(TimeUnit::Milliseconds, None)
}

/// `Series::into_duration` with nanosecond unit.
#[verifier::external_body]
pub(crate) fn series_into_duration_ns(s: Series) -> (r: Series)
    requires
        series_tag(s) == DType::Int64,
    ensures
        series_tag(r) == DType::DurationNs,
        series_label(r) == series_label(s),
        series_cells(r) == series_cells(s),
{
    s.into_duration(TimeUnit::Nanoseconds)
}

/// `Series::into_time`: reads 64-bit integers as nanoseconds since midnight.
#[verifier::external_body]
pub(crate) fn series_into_time(s: Series) -> (r: Series)
    requires
        series_tag(s) == DType::Int64,
    ensures
        series_tag(r) == DType::TimeNs,
        series_label(r) == series_label(s),
        series_cells(r) == series_cells(s),
{
    s.into_time()
}

/// `Series::slice` with a non-negative offset and a window that lies inside
/// the series: the elements `[offset, offset + length)`, name and kind kept.
#[verifier::external_body]
pub(crate) fn series_slice(s: &Series, offset: usize, length: usize) -> (r: Series)
    requires
        series_cells(*s).len() <= MAX_LEN,
        offset + length <= series_cells(*s).len(),
    ensures
        series_tag(r) == series_tag(*s),
        series_label(r) == series_label(*s),
        series_cells(r) == series_cells(*s).subrange(offset as int, offset + length),
{
    s.slice(offset as i64, length)
}

/// `Series::append`: adds the chunks of `other` behind those of `s`. Between
/// two series of one kind of the closed set it succeeds. If it fails, the
/// elements of `s` are as before.
#[verifier::external_body]
pub(crate) fn series_append(s: &mut Series, other: &Series) -> (r: Result<(), PolarsError>)
    requires
        series_cells(*old(s)).len() + series_cells(*other).len() <= MAX_LEN,
    ensures
        series_tag(*final(s)) == series_tag(*old(s)),
        series_label(*final(s)) == series_label(*old(s)),
        r is Err ==> series_cells(*final(s)) == series_cells(*old(s)),
        series_tag(*old(s)) == series_tag(*other) && series_tag(*other) != DType::Other ==> {
            &&& r is Ok
            &&& series_cells(*final(s)) == series_cells(*old(s)) + series_cells(*other)
        },
{
    s.append(other).map(|_| ())
}

/// `Series::bool` followed by `Series::filter`: keeps the elements at which a
/// boolean mask of the same length holds a non-null `true`.
#[verifier::external_body]
pub(crate) fn series_filter(s: &Series, mask: &Series) -> (r: Result<Series, PolarsError>)
    requires
        series_tag(*s) != DType::Other,
        series_tag(*mask) == DType::Boolean,
        series_cells(*mask).len() == series_cells(*s).len(),
        series_cells(*s).len() <= MAX_LEN,
    ensures
        r is Ok,
        r matches Ok(out) ==> {
            &&& series_tag(out) == series_tag(*s)
            &&& series_label(out) == series_label(*s)
            &&& series_cells(out) == keep(series_cells(*s), series_cells(*mask))
        },
{
    s.filter(mask.bool()?)
}

/// `Series::take` on an index array built from `idx`: `out[i] = s[idx[i]]`.
#[verifier::external_body]
pub(crate) fn series_take(s: &Series, idx: &Vec<usize>) -> (r: Result<Series, PolarsError>)
    requires
        series_tag(*s) != DType::Other,
        series_cells(*s).len() <= MAX_LEN,
        idx@.len() <= MAX_LEN,
        in_bounds(idx@, series_cells(*s).len()),
    ensures
        r is Ok,
        r matches Ok(out) ==> {
            &&& series_tag(out) == series_tag(*s)
            &&& series_label(out) == series_label(*s)
            &&& series_cells(out) == gather(series_cells(*s), idx@)
        },
{
    let ix: Vec<u32> = idx.iter().map(|i| *i as u32).collect();
    s.take(&IdxCa::from_vec("".into(), ix))
}

/// `Series::sort` on a copy whose sorted flag is cleared, with every option at
/// its default except the three given here. The result holds the elements of
/// `s`, each as often as `s` does; for a modelled kind they stand in the order
/// of `cell_le`, ascending with nulls last.
#[verifier::external_body]
pub(crate) fn series_sort(s: &Series, descending: bool, nulls_last: bool, keep_ties: bool) -> (r:
    Result<Series, PolarsError>)
    requires
        !descending,
        nulls_last,
        keep_ties,
        series_tag(*s) != DType::Other,
        series_cells(*s).len() <= MAX_LEN,
    ensures
        r is Ok,
        r matches Ok(out) ==> {
            &&& series_tag(out) == series_tag(*s)
            &&& series_label(out) == series_label(*s)
            &&& series_cells(out).len() == series_cells(*s).len()
            &&& series_cells(out).to_multiset() == series_cells(*s).to_multiset()
            &&& series_tag(*s).modelled() ==> sorted(series_cells(out))
        },
{
    let mut plain = s.clone();
    plain.set_sorted_flag(IsSorted::Not);
    let options = SortOptions::default().with_order_descending(descending).with_nulls_last(
        nulls_last,
    );
    plain.sort(options.with_maintain_order(keep_ties))
}

/// `Series::arg_sort` on a copy whose sorted flag is cleared, with the same
/// options as `series_sort`: a permutation of the positions; for a modelled
/// kind it puts the elements in the order of `cell_le`. The engine sorts the
/// non-null elements with a stable sort and lists the nulls behind them by
/// position, so equal elements keep their relative order.
#[verifier::external_body]
pub(crate) fn series_arg_sort(s: &Series, descending: bool, nulls_last: bool, keep_ties: bool) -> (r:
    Vec<usize>)
    requires
        !descending,
        nulls_last,
        keep_ties,
        series_tag(*s) != DType::Other,
        series_cells(*s).len() <= MAX_LEN,
    ensures
        is_permutation(r@, series_cells(*s).len()),
        series_tag(*s).modelled() ==> sorted(gather(series_cells(*s), r@)) && tie_stable(
            series_cells(*s),
            r@,
        ),
{
    let mut plain = s.clone();
    plain.set_sorted_flag(IsSorted::Not);
    let options = SortOptions::default().with_order_descending(descending).with_nulls_last(
        nulls_last,
    );
    let idx = plain.arg_sort(options.with_maintain_order(keep_ties));
    idx.into_no_null_iter().map(|i| i as usize).collect()
}

/// `Series::arg_unique`: positions in ascending order, each the first at which
/// its element occurs. For a modelled kind they are the first occurrences in
/// the sense of `first_occurrences`, all nulls counting as one element.
#[verifier::external_body]
pub(crate) fn series_arg_unique(s: &Series) -> (r: Result<Vec<usize>, PolarsError>)
    requires
        series_tag(*s) != DType::Other,
        series_cells(*s).len() <= MAX_LEN,
    ensures
        r is Ok,
        r matches Ok(idx) ==> {
            &&& ascending(idx@)
            &&& in_bounds(idx@, series_cells(*s).len())
            &&& series_tag(*s).modelled() ==> idx@ == first_occurrences(series_cells(*s))
        },
{
    Ok(s.arg_unique()?.into_no_null_iter().map(|i| i as usize).collect())
}

/// `Series::equals_missing` on two equally long series of one kind: true for
/// a series and itself; for a modelled kind, whether they hold the same
/// elements at the same positions, null matching null.
#[verifier::external_body]
pub(crate) fn series_equals_missing(a: &Series, b: &Series) -> (r: bool)
    requires
        series_tag(*a) == series_tag(*b),
        series_tag(*a) != DType::Other,
        series_cells(*a).len() == series_cells(*b).len(),
        series_cells(*a).len() <= MAX_LEN,
    ensures
        *a == *b ==> r,
        series_tag(*a).modelled() ==> r == (series_cells(*a) == series_cells(*b)),
{
    a.equals_missing(b)
}

/// `Series::is_null`, turned into a series: a boolean mask without nulls,
/// under the name of `s`.
#[verifier::external_body]
pub(crate) fn series_is_null(s: &Series) -> (r: Series)
    requires
        series_cells(*s).len() <= MAX_LEN,
    ensures
        series_tag(r) == DType::Boolean,
        series_label(r) == series_label(*s),
        series_cells(r) == null_mask(series_cells(*s)),
{
    s.is_null().into_series()
}

} // verus!
