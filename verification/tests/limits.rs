use polars::prelude::{NamedFrom, Series};
use polars::series::IsSorted;
use py_polars::dtype::DType;
use py_polars::error::PyPolarsEr;
use py_polars::model::MAX_LEN;
use py_polars::series::{operands_match, PySeries};

/// A series of `2^31` elements that shares its few values among many chunks.
fn huge() -> PySeries {
    let mut s = PySeries::new_i32("h", vec![7; 1 << 16]);
    for _ in 0..15 {
        let twin = s.clone();
        s.append(&twin).unwrap();
    }
    s
}

/// A series of `2^32` elements, chained by the engine itself.
fn over_long() -> PySeries {
    let mut bare: Series = huge().series;
    let twin = bare.clone();
    bare.append(&twin).unwrap();
    PySeries::new(bare)
}

#[test]
fn the_limit_is_one_below_the_largest_index() {
    assert_eq!(MAX_LEN, 4294967294);
    assert_eq!(MAX_LEN, (u32::MAX - 1) as usize);
}

#[test]
fn append_stops_at_the_limit() {
    let mut s = huge();
    assert_eq!(s.len(), 1 << 31);
    let twin = s.clone();
    assert!(matches!(s.append(&twin), Err(PyPolarsEr::TooLong)));
    assert_eq!(s.len(), 1 << 31);
    assert_eq!(twin.len(), 1 << 31);
    let rest = twin.slice(0, (1 << 31) - 2).unwrap();
    s.append(&rest).unwrap();
    assert_eq!(s.len(), MAX_LEN);
    assert!(matches!(s.append(&PySeries::new_i32("x", vec![1])), Err(PyPolarsEr::TooLong)));
    assert_eq!(s.len(), MAX_LEN);
    s.append(&PySeries::new_i32("x", vec![])).unwrap();
    assert_eq!(s.len(), MAX_LEN);
    assert_eq!(s.name(), "h");
    assert_eq!(s.null_count().unwrap(), 0);
}

#[test]
fn a_series_beyond_the_limit_is_refused() {
    let s = over_long();
    assert_eq!(s.len(), 1 << 32);
    assert_eq!(s.dtype(), "i32");
    assert_eq!(s.name(), "h");
    assert_eq!(s.null_count().unwrap(), 0);
    assert!(s.has_values());
    assert!(matches!(s.limit(1), Err(PyPolarsEr::TooLong)));
    assert!(matches!(s.head(Some(1)), Err(PyPolarsEr::TooLong)));
    assert!(matches!(s.tail(None), Err(PyPolarsEr::TooLong)));
    assert!(matches!(s.slice(0, 1), Err(PyPolarsEr::TooLong)));
    assert!(matches!(s.slice(1 << 32, 1), Err(PyPolarsEr::OutOfBounds)));
    assert!(matches!(s.take(vec![0]), Err(PyPolarsEr::TooLong)));
    assert!(matches!(s.take(vec![1 << 32]), Err(PyPolarsEr::OutOfBounds)));
    assert!(matches!(s.argsort(), Err(PyPolarsEr::TooLong)));
    assert!(matches!(s.is_null(), Err(PyPolarsEr::TooLong)));
    assert!(matches!(s.arg_unique(), Err(PyPolarsEr::TooLong)));
    assert!(matches!(s.add(&s), Err(PyPolarsEr::TooLong)));
    assert!(matches!(s.add_i32(1), Err(PyPolarsEr::TooLong)));
    assert!(matches!(s.div_i32_rhs(1), Err(PyPolarsEr::TooLong)));
    assert!(matches!(s.eq(&s), Err(PyPolarsEr::TooLong)));
    assert!(matches!(s.lt_i32(1), Err(PyPolarsEr::TooLong)));
    assert!(matches!(s.sum_i32(), Err(PyPolarsEr::TooLong)));
    assert!(matches!(s.min_i32(), Err(PyPolarsEr::TooLong)));
    assert!(matches!(s.sum_i64(), Err(PyPolarsEr::TypeMismatch)));
    assert!(matches!(s.series_equal(&s), Err(PyPolarsEr::TooLong)));
    assert!(!s.series_equal(&PySeries::new_i32("x", vec![7])).unwrap());
    assert!(!s.series_equal(&PySeries::new_i64("x", vec![7])).unwrap());
    assert!(matches!(operands_match(&s, &s), Err(PyPolarsEr::TooLong)));
    assert!(matches!(s.operand_of(DType::Int32), Err(PyPolarsEr::TooLong)));
    let mut t = s.clone();
    assert!(matches!(t.sort(), Err(PyPolarsEr::TooLong)));
    assert!(matches!(t.append(&PySeries::new_i32("x", vec![])), Err(PyPolarsEr::TooLong)));
    assert!(matches!(
        PySeries::new_i32("x", vec![1]).append(&s),
        Err(PyPolarsEr::TooLong)
    ));
    assert_eq!(t.len(), 1 << 32);
    assert_eq!(PyPolarsEr::TooLong.message(), "too long");
}

#[test]
fn a_mask_beyond_the_limit_is_refused() {
    let s = over_long();
    let mut mask: Series = PySeries::new_bool("m", vec![true; 1 << 16]).series;
    for _ in 0..16 {
        let twin = mask.clone();
        mask.append(&twin).unwrap();
    }
    let mask = PySeries::new(mask);
    assert_eq!(mask.len(), 1 << 32);
    assert!(matches!(s.filter(&mask), Err(PyPolarsEr::TooLong)));
    let short = PySeries::new_bool("m", vec![true]);
    assert!(matches!(s.filter(&short), Err(PyPolarsEr::LengthMismatch)));
}

/// `values` as a series that claims to be sorted ascending, whatever it holds.
fn flagged(values: Vec<Option<i32>>) -> PySeries {
    let mut bare: Series = PySeries::new_opt_i32("a", values).series;
    bare.set_sorted_flag(IsSorted::Ascending);
    PySeries::new(bare)
}

fn same(a: &PySeries, b: &PySeries) -> bool {
    a.series_equal(b).unwrap()
}

#[test]
fn a_wrong_sorted_flag_does_not_mislead_sort() {
    let mut s = flagged(vec![Some(3), Some(1), None, Some(2)]);
    assert_eq!(s.argsort().unwrap(), vec![1, 3, 0, 2]);
    s.sort().unwrap();
    assert!(same(&s, &PySeries::new_opt_i32("", vec![Some(1), Some(2), Some(3), None])));
    let mut t = flagged(vec![Some(3), Some(1), Some(2)]);
    assert_eq!(t.argsort().unwrap(), vec![1, 2, 0]);
    t.sort().unwrap();
    assert!(same(&t, &PySeries::new_i32("", vec![1, 2, 3])));
    let mut down: Series = PySeries::new_i32("a", vec![1, 3, 2]).series;
    down.set_sorted_flag(IsSorted::Descending);
    let mut down = PySeries::new(down);
    assert_eq!(down.argsort().unwrap(), vec![0, 2, 1]);
    down.sort().unwrap();
    assert!(same(&down, &PySeries::new_i32("", vec![1, 2, 3])));
}

#[test]
fn a_wrong_sorted_flag_does_not_mislead_min() {
    assert_eq!(flagged(vec![Some(3), Some(1), Some(2)]).min_i32().unwrap(), Some(1));
    assert_eq!(flagged(vec![None, Some(3), Some(1)]).min_i32().unwrap(), Some(1));
    assert_eq!(flagged(vec![Some(3), Some(1), Some(2)]).sum_i32().unwrap(), Some(6));
}

#[test]
fn a_wrong_sorted_flag_does_not_mislead_comparisons() {
    let s = flagged(vec![Some(3), Some(1), Some(2), Some(3)]);
    assert!(same(&s.eq_i32(3).unwrap(), &PySeries::new_bool("", vec![true, false, false, true])));
    assert!(same(&s.neq_i32(3).unwrap(), &PySeries::new_bool("", vec![false, true, true, false])));
    assert!(same(&s.gt_i32(1).unwrap(), &PySeries::new_bool("", vec![true, false, true, true])));
    assert!(same(&s.gt_eq_i32(2).unwrap(), &PySeries::new_bool("", vec![true, false, true, true])));
    assert!(same(&s.lt_i32(3).unwrap(), &PySeries::new_bool("", vec![false, true, true, false])));
    assert!(same(&s.lt_eq_i32(1).unwrap(), &PySeries::new_bool("", vec![false, true, false, false])));
    let t = PySeries::new_i32("t", vec![3, 3, 3, 3]);
    assert!(same(&s.eq(&t).unwrap(), &PySeries::new_bool("", vec![true, false, false, true])));
    assert!(same(&s.lt(&t).unwrap(), &PySeries::new_bool("", vec![false, true, true, false])));
    assert_eq!(s.arg_unique().unwrap(), vec![0, 1, 2]);
    assert!(same(&s, &PySeries::new_i32("", vec![3, 1, 2, 3])));
}

#[test]
fn operands_are_tested_in_order() {
    let a = PySeries::new_i32("a", vec![1, 2]);
    assert!(operands_match(&a, &PySeries::new_i32("b", vec![3, 4])).is_ok());
    assert!(matches!(
        operands_match(&a, &PySeries::new_i64("b", vec![3])),
        Err(PyPolarsEr::TypeMismatch)
    ));
    assert!(matches!(
        operands_match(&a, &PySeries::new_i32("b", vec![3])),
        Err(PyPolarsEr::LengthMismatch)
    ));
    let other = PySeries::new(Series::new("o".into(), &[1u64, 2]));
    assert!(matches!(operands_match(&other, &other), Err(PyPolarsEr::TypeMismatch)));
    let floats = PySeries::new(Series::new("f".into(), &[1.5f64, 2.5]));
    assert!(operands_match(&floats, &floats).is_ok());
    assert!(a.operand_of(DType::Int32).is_ok());
    assert!(matches!(a.operand_of(DType::Int64), Err(PyPolarsEr::TypeMismatch)));
    assert!(floats.operand_of(DType::Float64).is_ok());
    assert!(matches!(floats.operand_of(DType::Float32), Err(PyPolarsEr::TypeMismatch)));
}

#[test]
fn has_values_sees_through_nulls() {
    assert!(PySeries::new_i32("a", vec![0]).has_values());
    assert!(PySeries::new_opt_i32("a", vec![None, Some(1)]).has_values());
    assert!(!PySeries::new_opt_i32("a", vec![None, None]).has_values());
    assert!(!PySeries::new_i32("a", vec![]).has_values());
}
