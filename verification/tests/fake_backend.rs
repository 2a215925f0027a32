use ort_run::element_type::ElementType;
use ort_run::engine::NullEngine;
use ort_run::error::RunError;
use ort_run::run::{validate_raw, validate_typed, RustOwnerValue, Session};

#[test]
fn null_engine_tracks_live_references() {
    let mut engine = NullEngine::new();
    assert_eq!(engine.live_count(), 0);
    let a = RustOwnerValue::new(&mut engine, &vec![1i64], vec![1i32], ElementType::Int32).unwrap();
    let b = RustOwnerValue::new(&mut engine, &vec![1i64], vec![2i32], ElementType::Int32).unwrap();
    assert_eq!(engine.live_count(), 2);
    a.into_container(&mut engine);
    assert_eq!(engine.live_count(), 1);
    let mut b = b;
    b.release(&mut engine);
    b.release(&mut engine);
    assert_eq!(engine.live_count(), 0);
}

#[test]
fn null_engine_run_leaves_outputs_unchanged() {
    let mut engine = NullEngine::new();
    let session = Session::new(1, vec![b"y".to_vec()]);
    let input =
        RustOwnerValue::new(&mut engine, &vec![1i64], vec![7i32], ElementType::Int32).unwrap();
    let output =
        RustOwnerValue::new_mut(&mut engine, &vec![2i64], vec![3i32, 4], ElementType::Int32)
            .unwrap();
    let inputs = vec![input];
    let mut outputs = vec![output];
    let input_names: Vec<Vec<u8>> = vec![b"x".to_vec()];
    let r = session.run_io(&mut engine, &input_names, &inputs, &mut outputs, None);
    assert!(r.is_ok());
    assert_eq!(outputs[0].as_slice(), &[3, 4]);
}

#[test]
fn typed_validation_reports_each_failure() {
    assert_eq!(validate_typed(&vec![2i64, 3], 6).unwrap(), 6);
    assert!(matches!(validate_typed(&vec![2i64, 3], 5), Err(RunError::ShapeMismatch)));
    assert!(matches!(validate_typed(&vec![-2i64, 3], 6), Err(RunError::ShapeMismatch)));
    assert!(matches!(validate_typed(&vec![0i64], 0), Err(RunError::NullBuffer)));
    assert_eq!(validate_typed(&Vec::new(), 1).unwrap(), 1);
    // A product far beyond any buffer length is a plain length disagreement.
    assert!(matches!(
        validate_typed(&vec![i64::MAX, i64::MAX], 6),
        Err(RunError::ShapeMismatch)
    ));
}

#[test]
fn raw_validation_reports_each_failure() {
    assert_eq!(validate_raw(&vec![4i64], ElementType::Int32, 16).unwrap(), 16);
    assert!(matches!(
        validate_raw(&vec![4i64], ElementType::Int32, 15),
        Err(RunError::ShapeMismatch)
    ));
    assert!(matches!(
        validate_raw(&vec![4i64], ElementType::Str, 16),
        Err(RunError::UnsupportedType)
    ));
    assert!(matches!(
        validate_raw(&vec![2i64], ElementType::Undefined, 0),
        Err(RunError::NullBuffer)
    ));
    assert!(matches!(
        validate_raw(&vec![i64::MAX, i64::MAX], ElementType::Int64, 8),
        Err(RunError::ShapeMismatch)
    ));
}
