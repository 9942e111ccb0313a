use py_polars::error::PyPolarsEr;
use py_polars::series::PySeries;

#[test]
fn aggregates_and_order_with_one_null() {
    let s = PySeries::new_opt_i32("a", vec![Some(1), Some(2), None, Some(4)]);
    assert_eq!(s.sum_i32().unwrap(), Some(7));
    assert_eq!(s.min_i32().unwrap(), Some(1));
    assert_eq!(s.null_count().unwrap(), 1);
    let mean: f64 = s.series.mean().unwrap();
    assert!((mean - 7.0 / 3.0).abs() < 1e-12);
    assert_eq!(s.argsort().unwrap(), vec![0, 1, 3, 2]);
    let mut sorted = s.clone();
    sorted.sort().unwrap();
    let expected = PySeries::new_opt_i32("", vec![Some(1), Some(2), Some(4), None]);
    assert!(sorted.series_equal(&expected).unwrap());
}

#[test]
fn add_and_gt_of_two_series() {
    let a = PySeries::new_i32("a", vec![1, 2, 3]);
    let b = PySeries::new_i32("b", vec![4, 5, 6]);
    let sum = a.add(&b).unwrap();
    assert!(sum.series_equal(&PySeries::new_i32("", vec![5, 7, 9])).unwrap());
    let gt = a.gt(&b).unwrap();
    assert!(gt.series_equal(&PySeries::new_bool("", vec![false, false, false])).unwrap());
}

#[test]
fn take_on_strings() {
    let s = PySeries::new_str("s", vec!["a", "b", "c"]);
    let got = s.take(vec![2, 0]).unwrap();
    assert!(got.series_equal(&PySeries::new_str("", vec!["c", "a"])).unwrap());
    assert!(matches!(s.take(vec![3]), Err(PyPolarsEr::OutOfBounds)));
}
