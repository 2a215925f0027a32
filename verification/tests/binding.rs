use ort_run::element_type::ElementType;
use ort_run::engine::{NativeEngine, TensorEngine};
use ort_run::error::RunError;
use ort_run::run::{BindMode, RustOwnerValue};

/// A reference-counting fake backend: records every creation and release so
/// tests can check that no native reference leaks or is double-released.
struct CountingEngine {
    next: u64,
    live: Vec<u64>,
    create_calls: usize,
    release_calls: Vec<u64>,
    refuse_create: bool,
    deny_tensor_check: bool,
}

impl CountingEngine {
    fn new() -> CountingEngine {
        CountingEngine {
            next: 1,
            live: Vec::new(),
            create_calls: 0,
            release_calls: Vec::new(),
            refuse_create: false,
            deny_tensor_check: false,
        }
    }

    fn create(&mut self) -> Result<u64, String> {
        if self.refuse_create {
            return Err(String::from("create refused"));
        }
        self.create_calls += 1;
        let r = self.next;
        self.next += 1;
        self.live.push(r);
        Ok(r)
    }
}

impl NativeEngine for CountingEngine {
    fn is_tensor(&mut self, nref: u64) -> bool {
        !self.deny_tensor_check && self.live.contains(&nref)
    }

    fn release_tensor(&mut self, nref: u64) {
        self.release_calls.push(nref);
        self.live.retain(|r| *r != nref);
    }
}

impl TensorEngine<f32> for CountingEngine {
    fn create_tensor(&mut self, _shape: &Vec<i64>, _tag: i32, _data: &Vec<f32>) -> Result<u64, String> {
        self.create()
    }

    fn run(
        &mut self,
        _session_ref: u64,
        _options_ref: u64,
        _input_names: &Vec<Vec<u8>>,
        _input_refs: &Vec<u64>,
        _output_names: &Vec<Vec<u8>>,
        _output_refs: &Vec<u64>,
        _output_bufs: &mut Vec<Vec<f32>>,
    ) -> Result<(), String> {
        Ok(())
    }
}

impl TensorEngine<u8> for CountingEngine {
    fn create_tensor(&mut self, _shape: &Vec<i64>, _tag: i32, _data: &Vec<u8>) -> Result<u64, String> {
        self.create()
    }

    fn run(
        &mut self,
        _session_ref: u64,
        _options_ref: u64,
        _input_names: &Vec<Vec<u8>>,
        _input_refs: &Vec<u64>,
        _output_names: &Vec<Vec<u8>>,
        _output_refs: &Vec<u64>,
        _output_bufs: &mut Vec<Vec<u8>>,
    ) -> Result<(), String> {
        Ok(())
    }
}

#[test]
fn bind_immutable_keeps_elements_in_order() {
    let mut engine = CountingEngine::new();
    let shape: Vec<i64> = vec![2, 3];
    let data: Vec<f32> = vec![1.0, 2.0, 3.0, 4.0, 5.0, 6.0];
    let mut handle =
        RustOwnerValue::new(&mut engine, &shape, data, ElementType::Float32).unwrap();
    assert_eq!(handle.as_slice(), &[1.0, 2.0, 3.0, 4.0, 5.0, 6.0]);
    assert_eq!(handle.shape().as_slice(), &[2, 3]);
    assert_eq!(handle.element_type(), ElementType::Float32);
    assert_eq!(handle.bind_mode(), BindMode::Immutable);
    assert!(handle.is_live());
    assert_eq!(engine.create_calls, 1);
    handle.release(&mut engine);
    assert!(engine.live.is_empty());
}

#[test]
fn shape_mismatch_creates_no_native_reference() {
    let mut engine = CountingEngine::new();
    let shape: Vec<i64> = vec![2, 3];
    let data: Vec<f32> = vec![1.0, 2.0, 3.0, 4.0, 5.0];
    match RustOwnerValue::new(&mut engine, &shape, data, ElementType::Float32) {
        Err(failure) => {
            assert!(matches!(failure.error, RunError::ShapeMismatch));
            assert_eq!(failure.buffer, vec![1.0, 2.0, 3.0, 4.0, 5.0]);
        }
        Ok(_) => panic!("a five-element buffer must not satisfy shape [2, 3]"),
    }
    assert_eq!(engine.create_calls, 0);
    assert!(engine.live.is_empty());
}

#[test]
fn negative_dimension_is_a_shape_mismatch() {
    let mut engine = CountingEngine::new();
    let shape: Vec<i64> = vec![-1, 6];
    let data: Vec<f32> = vec![0.0; 6];
    let r = RustOwnerValue::new(&mut engine, &shape, data, ElementType::Float32);
    assert!(matches!(r, Err(ref b) if matches!(b.error, RunError::ShapeMismatch)));
    assert_eq!(engine.create_calls, 0);
}

#[test]
fn empty_buffer_is_a_null_buffer() {
    let mut engine = CountingEngine::new();
    let shape: Vec<i64> = vec![0, 3];
    let data: Vec<f32> = Vec::new();
    let r = RustOwnerValue::new(&mut engine, &shape, data, ElementType::Float32);
    assert!(matches!(r, Err(ref b) if matches!(b.error, RunError::NullBuffer)));
    assert_eq!(engine.create_calls, 0);
}

#[test]
fn release_happens_exactly_once() {
    let mut engine = CountingEngine::new();
    let shape: Vec<i64> = vec![3];
    let data: Vec<f32> = vec![1.0, 2.0, 3.0];
    let mut handle =
        RustOwnerValue::new(&mut engine, &shape, data, ElementType::Float32).unwrap();
    handle.release(&mut engine);
    handle.release(&mut engine);
    assert_eq!(engine.release_calls.len(), 1);
    assert!(!handle.is_live());
    let buffer = handle.into_container(&mut engine);
    assert_eq!(buffer, vec![1.0, 2.0, 3.0]);
    assert_eq!(engine.release_calls.len(), 1);
}

#[test]
fn take_buffer_releases_and_returns_data() {
    let mut engine = CountingEngine::new();
    let shape: Vec<i64> = vec![2, 2];
    let data: Vec<f32> = vec![9.0, 8.0, 7.0, 6.0];
    let handle = RustOwnerValue::new(&mut engine, &shape, data, ElementType::Float32).unwrap();
    let buffer = handle.into_container(&mut engine);
    assert_eq!(buffer, vec![9.0, 8.0, 7.0, 6.0]);
    assert_eq!(engine.release_calls.len(), 1);
    assert!(engine.live.is_empty());
}

#[test]
fn mutable_binding_gives_a_writable_view() {
    let mut engine = CountingEngine::new();
    let shape: Vec<i64> = vec![2];
    let data: Vec<f32> = vec![1.0, 2.0];
    let mut handle =
        RustOwnerValue::new_mut(&mut engine, &shape, data, ElementType::Float32).unwrap();
    assert_eq!(handle.bind_mode(), BindMode::Mutable);
    {
        let view = handle.as_mut_slice();
        view[0] = 10.0;
        view[1] = 20.0;
    }
    assert_eq!(handle.as_slice(), &[10.0, 20.0]);
    let buffer = handle.into_container(&mut engine);
    assert_eq!(buffer, vec![10.0, 20.0]);
}

#[test]
fn refused_create_hands_the_buffer_back() {
    let mut engine = CountingEngine::new();
    engine.refuse_create = true;
    let shape: Vec<i64> = vec![1];
    let data: Vec<f32> = vec![42.0];
    match RustOwnerValue::new(&mut engine, &shape, data, ElementType::Float32) {
        Err(failure) => {
            match failure.error {
                RunError::NativeCreateFailed { detail } => assert_eq!(detail, "create refused"),
                other => panic!("expected NativeCreateFailed, got {:?}", other),
            }
            assert_eq!(failure.buffer, vec![42.0]);
        }
        Ok(_) => panic!("the engine refused creation, binding cannot succeed"),
    }
}

#[test]
fn failed_tensor_check_releases_the_created_reference() {
    let mut engine = CountingEngine::new();
    engine.deny_tensor_check = true;
    let shape: Vec<i64> = vec![1];
    let data: Vec<f32> = vec![1.5];
    match RustOwnerValue::new(&mut engine, &shape, data, ElementType::Float32) {
        Err(failure) => {
            assert!(matches!(failure.error, RunError::NativeCreateFailed { .. }));
            assert_eq!(failure.buffer, vec![1.5]);
        }
        Ok(_) => panic!("the self-check failed, binding cannot succeed"),
    }
    assert_eq!(engine.create_calls, 1);
    assert_eq!(engine.release_calls.len(), 1);
    assert!(engine.live.is_empty());
}

#[test]
fn raw_binding_with_string_type_is_unsupported() {
    let mut engine = CountingEngine::new();
    let shape: Vec<i64> = vec![4];
    for data in [vec![1u8, 2, 3, 4], Vec::new(), vec![0u8; 32]] {
        let expected = data.clone();
        match RustOwnerValue::with_any_type(&mut engine, &shape, data, ElementType::Str) {
            Err(failure) => {
                assert!(matches!(failure.error, RunError::UnsupportedType));
                assert_eq!(failure.buffer, expected);
            }
            Ok(_) => panic!("the string kind has no fixed width"),
        }
    }
    assert_eq!(engine.create_calls, 0);
}

#[test]
fn raw_binding_byte_length_must_match_exactly() {
    let mut engine = CountingEngine::new();
    let shape: Vec<i64> = vec![4];
    let fifteen: Vec<u8> = vec![0u8; 15];
    let r = RustOwnerValue::with_any_type(&mut engine, &shape, fifteen, ElementType::Int32);
    assert!(matches!(r, Err(ref b) if matches!(b.error, RunError::ShapeMismatch)));
    assert_eq!(engine.create_calls, 0);

    let sixteen: Vec<u8> = (0u8..16).collect();
    let handle =
        RustOwnerValue::with_any_type(&mut engine, &shape, sixteen, ElementType::Int32).unwrap();
    assert_eq!(handle.bind_mode(), BindMode::RawImmutable);
    assert_eq!(handle.element_type(), ElementType::Int32);
    assert_eq!(handle.as_slice().len(), 16);
    assert_eq!(engine.create_calls, 1);
    handle.into_container(&mut engine);
}

#[test]
fn raw_mutable_binding_is_writable() {
    let mut engine = CountingEngine::new();
    let shape: Vec<i64> = vec![2];
    let data: Vec<u8> = vec![0u8, 0, 0, 0];
    let mut handle =
        RustOwnerValue::with_any_type_mut(&mut engine, &shape, data, ElementType::Uint16).unwrap();
    assert_eq!(handle.bind_mode(), BindMode::RawMutable);
    {
        let view = handle.as_mut_slice();
        view[0] = 0xff;
        view[3] = 0x7f;
    }
    assert_eq!(handle.as_slice(), &[0xff, 0, 0, 0x7f]);
    handle.into_container(&mut engine);
}
