use polars::prelude::PolarsError;
use py_polars::error::PyPolarsEr;
use py_polars::series::PySeries;

#[test]
fn own_failures_have_fixed_messages() {
    assert_eq!(PyPolarsEr::TypeMismatch.message(), "type mismatch");
    assert_eq!(PyPolarsEr::LengthMismatch.message(), "length mismatch");
    assert_eq!(PyPolarsEr::OutOfBounds.message(), "out of bounds");
}

#[test]
fn other_carries_its_message() {
    assert_eq!(PyPolarsEr::Other("no such column".to_string()).message(), "no such column");
    assert_eq!(PyPolarsEr::Other(String::new()).message(), "");
}

#[test]
fn engine_failures_convert_and_keep_their_wording() {
    let err = PyPolarsEr::from(PolarsError::ComputeError("ran out of luck".into()));
    assert!(matches!(err, PyPolarsEr::Any(_)));
    assert!(err.message().contains("ran out of luck"));
}

#[test]
fn each_failure_of_the_library_can_be_provoked() {
    let a = PySeries::new_i32("a", vec![1, 2, 3]);
    let s = PySeries::new_str("s", vec!["x"]);
    assert!(matches!(a.add(&s), Err(PyPolarsEr::TypeMismatch)));
    assert!(matches!(a.eq(&PySeries::new_i32("b", vec![1])), Err(PyPolarsEr::LengthMismatch)));
    assert!(matches!(a.slice(1, 3), Err(PyPolarsEr::OutOfBounds)));
}

#[test]
fn a_failed_operation_leaves_the_receiver_alone() {
    let mut a = PySeries::new_opt_i32("a", vec![Some(1), None]);
    let chunks = a.n_chunks();
    assert!(a.append(&PySeries::new_bool("b", vec![true])).is_err());
    assert_eq!(a.name(), "a");
    assert_eq!(a.len(), 2);
    assert_eq!(a.n_chunks(), chunks);
    assert!(a.series_equal(&PySeries::new_opt_i32("", vec![Some(1), None])).unwrap());
}

#[test]
fn chunks_are_invisible_to_results() {
    let mut a = PySeries::new_i32("a", vec![1, 2]);
    assert_eq!(a.n_chunks(), 1);
    a.append(&PySeries::new_i32("b", vec![3])).unwrap();
    a.append(&PySeries::new_i32("c", vec![4, 5])).unwrap();
    assert!(a.n_chunks() >= 1);
    let whole = PySeries::new_i32("w", vec![1, 2, 3, 4, 5]);
    assert!(a.series_equal(&whole).unwrap());
    assert!(a.slice(1, 3).unwrap().series_equal(&whole.slice(1, 3).unwrap()).unwrap());
    assert!(a.take(vec![4, 2, 0]).unwrap().series_equal(&PySeries::new_i32("", vec![5, 3, 1])).unwrap());
    assert_eq!(a.sum_i32().unwrap(), Some(15));
    assert_eq!(a.min_i32().unwrap(), Some(1));
    assert_eq!(a.argsort().unwrap(), vec![0, 1, 2, 3, 4]);
    assert!(a.add(&whole).unwrap().series_equal(&PySeries::new_i32("", vec![2, 4, 6, 8, 10])).unwrap());
    assert!(a.lt_i32(3).unwrap().series_equal(&PySeries::new_bool("", vec![true, true, false, false, false])).unwrap());
    let m = PySeries::new_bool("m", vec![true, false, true, false, true]);
    assert!(a.filter(&m).unwrap().series_equal(&PySeries::new_i32("", vec![1, 3, 5])).unwrap());
    assert_eq!(a.arg_unique().unwrap(), vec![0, 1, 2, 3, 4]);
    let mut sorted = a.clone();
    sorted.sort().unwrap();
    assert!(sorted.series_equal(&whole).unwrap());
    assert_eq!(a.tail(Some(2)).unwrap().len(), 2);
    assert!(a.tail(Some(2)).unwrap().series_equal(&PySeries::new_i32("", vec![4, 5])).unwrap());
}
