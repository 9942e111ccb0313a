use py_polars::dtype::DType;
use py_polars::error::PyPolarsEr;
use py_polars::series::PySeries;

fn same(a: &PySeries, b: &PySeries) -> bool {
    a.series_equal(b).unwrap()
}

#[test]
fn constructors_set_name_kind_and_length() {
    let s = PySeries::new_i32("a", vec![1, 2, 3]);
    assert_eq!(s.name(), "a");
    assert_eq!(s.dtype(), "i32");
    assert_eq!(s.tag(), DType::Int32);
    assert_eq!(s.len(), 3);
    assert_eq!(PySeries::new_i64("b", vec![1]).dtype(), "i64");
    assert_eq!(PySeries::new_u32("c", vec![1]).dtype(), "u32");
    assert_eq!(PySeries::new_bool("d", vec![true]).dtype(), "bool");
    assert_eq!(PySeries::new_str("e", vec!["x"]).dtype(), "str");
    assert_eq!(PySeries::new_date32("f", vec![1]).dtype(), "date32");
    assert_eq!(PySeries::new_date64("g", vec![1]).dtype(), "date64");
    assert_eq!(PySeries::new_duration_ns("h", vec![1]).dtype(), "duration_ns");
    assert_eq!(PySeries::new_time_ns("i", vec![1]).dtype(), "time_ns");
    assert_eq!(PySeries::new_time_ns("i", vec![1, 2]).len(), 2);
}

#[test]
fn optional_constructors_keep_nulls() {
    let s = PySeries::new_opt_i32("a", vec![Some(1), None, Some(3)]);
    assert_eq!(s.len(), 3);
    assert_eq!(s.null_count().unwrap(), 1);
    let t = PySeries::new_opt_str("t", vec![None, Some("x")]);
    assert_eq!(t.null_count().unwrap(), 1);
    assert_eq!(t.dtype(), "str");
    let b = PySeries::new_opt_bool("b", vec![None, None]);
    assert_eq!(b.null_count().unwrap(), 2);
    assert_eq!(PySeries::new_opt_i64("x", vec![None]).dtype(), "i64");
    assert_eq!(PySeries::new_opt_u32("x", vec![None]).dtype(), "u32");
}

#[test]
fn plain_and_optional_constructors_agree() {
    let a = PySeries::new_i32("a", vec![1, 2]);
    let b = PySeries::new_opt_i32("b", vec![Some(1), Some(2)]);
    assert!(same(&a, &b));
    let c = PySeries::new_str("a", vec!["x", "y"]);
    let d = PySeries::new_opt_str("b", vec![Some("x"), Some("y")]);
    assert!(same(&c, &d));
}

#[test]
fn rename_changes_only_the_name() {
    let mut s = PySeries::new_i32("a", vec![1, 2, 3]);
    let before = s.clone();
    let chunks = s.n_chunks();
    s.rename("b");
    assert_eq!(s.name(), "b");
    assert_eq!(s.dtype(), "i32");
    assert_eq!(s.n_chunks(), chunks);
    assert!(same(&s, &before));
    assert_eq!(before.name(), "a");
}

#[test]
fn limit_saturates() {
    let s = PySeries::new_i32("a", vec![1, 2, 3]);
    assert!(same(&s.limit(2).unwrap(), &PySeries::new_i32("", vec![1, 2])));
    assert!(same(&s.limit(3).unwrap(), &s));
    assert!(same(&s.limit(100).unwrap(), &s));
    assert_eq!(s.limit(0).unwrap().len(), 0);
    assert_eq!(s.limit(0).unwrap().dtype(), "i32");
}

#[test]
fn head_and_tail_take_the_ends() {
    let s = PySeries::new_i32("a", vec![1, 2, 3, 4]);
    assert!(same(&s.head(Some(2)).unwrap(), &PySeries::new_i32("", vec![1, 2])));
    assert!(same(&s.tail(Some(2)).unwrap(), &PySeries::new_i32("", vec![3, 4])));
    assert!(same(&s.head(Some(9)).unwrap(), &s));
    assert!(same(&s.tail(Some(9)).unwrap(), &s));
    assert_eq!(s.head(Some(0)).unwrap().len(), 0);
    assert_eq!(s.tail(Some(0)).unwrap().len(), 0);
    assert_eq!(s.tail(Some(1)).unwrap().name(), "a");
}

#[test]
fn head_and_tail_default_to_ten() {
    let s = PySeries::new_i32("a", (0..25).collect());
    assert!(same(&s.head(None).unwrap(), &PySeries::new_i32("", (0..10).collect())));
    assert!(same(&s.tail(None).unwrap(), &PySeries::new_i32("", (15..25).collect())));
    let short = PySeries::new_i32("a", vec![1, 2]);
    assert!(same(&short.head(None).unwrap(), &short));
    assert!(same(&short.tail(None).unwrap(), &short));
}

#[test]
fn slice_returns_the_window() {
    let s = PySeries::new_opt_i32("a", vec![Some(1), None, Some(3), Some(4), Some(5)]);
    let got = s.slice(1, 3).unwrap();
    assert_eq!(got.len(), 3);
    assert_eq!(got.name(), "a");
    assert_eq!(got.dtype(), "i32");
    assert!(same(&got, &PySeries::new_opt_i32("", vec![None, Some(3), Some(4)])));
    assert!(same(&s.slice(0, 5).unwrap(), &s));
}

#[test]
fn slice_past_the_end_is_out_of_bounds() {
    let s = PySeries::new_i32("a", vec![1, 2, 3]);
    assert!(matches!(s.slice(2, 2), Err(PyPolarsEr::OutOfBounds)));
    assert!(matches!(s.slice(4, 0), Err(PyPolarsEr::OutOfBounds)));
    assert!(matches!(s.slice(0, 4), Err(PyPolarsEr::OutOfBounds)));
    assert!(matches!(s.slice(usize::MAX, 2), Err(PyPolarsEr::OutOfBounds)));
    assert_eq!(s.slice(3, 0).unwrap().len(), 0);
}

#[test]
fn slices_appended_restore_the_series() {
    let s = PySeries::new_opt_i32("a", vec![Some(1), None, Some(3), Some(4), None]);
    for n in 0..=5 {
        let mut left = s.slice(0, n).unwrap();
        let right = s.slice(n, 5 - n).unwrap();
        assert_eq!(left.len(), n);
        assert_eq!(right.len(), 5 - n);
        left.append(&right).unwrap();
        assert!(same(&left, &s));
    }
}

#[test]
fn append_concatenates_in_place() {
    let mut a = PySeries::new_i32("a", vec![1, 2]);
    let b = PySeries::new_opt_i32("b", vec![None, Some(4)]);
    a.append(&b).unwrap();
    assert_eq!(a.name(), "a");
    assert!(same(&a, &PySeries::new_opt_i32("", vec![Some(1), Some(2), None, Some(4)])));
    assert_eq!(b.len(), 2);
}

#[test]
fn append_of_another_kind_is_a_type_mismatch() {
    let mut a = PySeries::new_i32("a", vec![1, 2]);
    let before = a.clone();
    let b = PySeries::new_i64("b", vec![3]);
    assert!(matches!(a.append(&b), Err(PyPolarsEr::TypeMismatch)));
    assert!(same(&a, &before));
    let d = PySeries::new_date32("d", vec![3]);
    assert!(matches!(a.append(&d), Err(PyPolarsEr::TypeMismatch)));
    assert!(same(&a, &before));
}

#[test]
fn filter_keeps_selected_elements() {
    let s = PySeries::new_opt_i32("a", vec![Some(1), None, Some(3), Some(4)]);
    let m = PySeries::new_bool("m", vec![true, true, false, true]);
    let got = s.filter(&m).unwrap();
    assert_eq!(got.name(), "a");
    assert!(same(&got, &PySeries::new_opt_i32("", vec![Some(1), None, Some(4)])));
}

#[test]
fn filter_treats_null_mask_as_false() {
    let s = PySeries::new_i32("a", vec![1, 2, 3]);
    let m = PySeries::new_opt_bool("m", vec![Some(true), None, Some(false)]);
    assert!(same(&s.filter(&m).unwrap(), &PySeries::new_i32("", vec![1])));
}

#[test]
fn filter_rejects_wrong_mask() {
    let s = PySeries::new_i32("a", vec![1, 2, 3]);
    let not_bool = PySeries::new_i32("m", vec![1, 0, 1]);
    assert!(matches!(s.filter(&not_bool), Err(PyPolarsEr::TypeMismatch)));
    let short = PySeries::new_bool("m", vec![true, false]);
    assert!(matches!(s.filter(&short), Err(PyPolarsEr::LengthMismatch)));
    let one = PySeries::new_bool("m", vec![true]);
    assert!(matches!(s.filter(&one), Err(PyPolarsEr::LengthMismatch)));
    let not_bool_short = PySeries::new_i32("m", vec![1]);
    assert!(matches!(s.filter(&not_bool_short), Err(PyPolarsEr::TypeMismatch)));
}

#[test]
fn filter_of_one_element() {
    let s = PySeries::new_i32("a", vec![7]);
    let yes = PySeries::new_bool("m", vec![true]);
    let no = PySeries::new_bool("m", vec![false]);
    let null = PySeries::new_opt_bool("m", vec![None]);
    assert!(same(&s.filter(&yes).unwrap(), &s));
    assert_eq!(s.filter(&no).unwrap().len(), 0);
    assert_eq!(s.filter(&null).unwrap().len(), 0);
}

#[test]
fn filter_never_adds_nulls() {
    let s = PySeries::new_opt_i32("a", vec![Some(1), None, None, Some(4)]);
    let m = PySeries::new_bool("m", vec![false, true, false, true]);
    let got = s.filter(&m).unwrap();
    assert_eq!(got.null_count().unwrap(), 1);
    assert!(got.null_count().unwrap() <= s.null_count().unwrap());
}

#[test]
fn take_gathers() {
    let s = PySeries::new_opt_i32("a", vec![Some(10), None, Some(30)]);
    let got = s.take(vec![2, 2, 1, 0]).unwrap();
    assert_eq!(got.name(), "a");
    assert!(same(&got, &PySeries::new_opt_i32("", vec![Some(30), Some(30), None, Some(10)])));
    assert_eq!(s.take(vec![]).unwrap().len(), 0);
}

#[test]
fn take_out_of_bounds() {
    let s = PySeries::new_i32("a", vec![10, 20, 30]);
    assert!(matches!(s.take(vec![0, 3]), Err(PyPolarsEr::OutOfBounds)));
    assert!(matches!(s.take(vec![usize::MAX]), Err(PyPolarsEr::OutOfBounds)));
    assert!(matches!(s.take(vec![4294967296]), Err(PyPolarsEr::OutOfBounds)));
}

#[test]
fn null_count_counts_nulls() {
    assert_eq!(PySeries::new_i32("a", vec![]).null_count().unwrap(), 0);
    assert_eq!(PySeries::new_i32("a", vec![1, 2]).null_count().unwrap(), 0);
    let s = PySeries::new_opt_i64("a", vec![None, Some(1), None]);
    assert_eq!(s.null_count().unwrap(), 2);
}

#[test]
fn is_null_marks_nulls() {
    let s = PySeries::new_opt_i32("a", vec![Some(1), None, Some(3)]);
    let m = s.is_null().unwrap();
    assert_eq!(m.name(), "a");
    assert_eq!(m.dtype(), "bool");
    assert!(same(&m, &PySeries::new_bool("", vec![false, true, false])));
    let full = PySeries::new_i32("a", vec![1, 2]).is_null().unwrap();
    assert!(same(&full, &PySeries::new_bool("", vec![false, false])));
}

#[test]
fn clone_is_equal_and_independent() {
    let s = PySeries::new_opt_i32("a", vec![Some(3), None, Some(1)]);
    let mut c = s.clone();
    assert!(same(&s, &c));
    c.sort().unwrap();
    assert!(same(&s, &PySeries::new_opt_i32("", vec![Some(3), None, Some(1)])));
    let mut d = s.clone();
    d.append(&s).unwrap();
    assert_eq!(d.len(), 6);
    assert_eq!(s.len(), 3);
    assert!(same(&s, &PySeries::new_opt_i32("", vec![Some(3), None, Some(1)])));
    let mut e = s.clone();
    e.rename("z");
    assert_eq!(s.name(), "a");
}

#[test]
fn dtype_names_are_stable() {
    assert_eq!(DType::Int32.to_str(), "i32");
    assert_eq!(DType::Int64.to_str(), "i64");
    assert_eq!(DType::UInt32.to_str(), "u32");
    assert_eq!(DType::Float32.to_str(), "f32");
    assert_eq!(DType::Float64.to_str(), "f64");
    assert_eq!(DType::Boolean.to_str(), "bool");
    assert_eq!(DType::String.to_str(), "str");
    assert_eq!(DType::Other.to_str(), "other");
    assert!(DType::Int32.is_numeric());
    assert!(!DType::Boolean.is_numeric());
    assert!(DType::Boolean.is_modelled());
    assert!(!DType::Float64.is_modelled());
    assert!(!DType::Other.is_modelled());
}
