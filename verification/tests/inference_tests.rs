use magna_middleware::inference::buffer_manager::BufferManager;
use magna_middleware::inference::engine_manager::EngineManager;
use magna_middleware::inference::traits::{EngineInfo, InferenceBackend, TensorBuffer, TensorSpec};
use magna_middleware::utils::errors::Precision;

fn score_bytes() -> [u8; 4] {
    (1.0f32 / 1000.0).to_le_bytes()
}

fn sample_engine_info() -> EngineInfo {
    EngineInfo {
        name: "resnet50".into(),
        precision: Precision::FP32,
        inputs: vec![TensorSpec { name: "input".to_string(), shape: vec![1, 3, 224, 224] }],
        outputs: vec![TensorSpec { name: "output".to_string(), shape: vec![1, 1000] }],
        memory_bytes: 50 * 1024 * 1024,
    }
}

#[test]
fn tensor_shape_calculation() {
    let buf = TensorBuffer {
        name: "input".to_string(),
        data: vec![0u8; 3 * 224 * 224 * 4],
        shape: vec![1, 3, 224, 224],
        precision: Precision::FP32,
    };
    assert_eq!(buf.num_elements(), 150_528);
    assert_eq!(buf.byte_size(), 150_528 * 4);
}

#[test]
fn tensor_validation() {
    let valid = TensorBuffer {
        name: "test".to_string(),
        data: vec![0u8; 24],
        shape: vec![1, 2, 3],
        precision: Precision::FP32,
    };
    assert!(valid.validate().is_ok());

    let invalid = TensorBuffer {
        name: "test".to_string(),
        data: vec![0u8; 10],
        shape: vec![1, 2, 3],
        precision: Precision::FP32,
    };
    assert!(invalid.validate().is_err());
}

#[test]
fn validation_message_names_sizes() {
    let invalid = TensorBuffer {
        name: "test".to_string(),
        data: vec![0u8; 10],
        shape: vec![1, 2, 3],
        precision: Precision::FP32,
    };
    let e = invalid.validate().unwrap_err();
    assert_eq!(
        e.to_string(),
        "Inference execution failed: Tensor size mismatch: data has 10 bytes but shape [1, 2, 3] × FP32 expects 24 bytes"
    );
}

#[test]
fn try_as_f32_non_fp32_fails() {
    let buf = TensorBuffer {
        name: "test".to_string(),
        data: vec![0u8; 4],
        shape: vec![1, 4],
        precision: Precision::INT8,
    };
    assert!(buf.check_f32_layout().is_err());
}

#[test]
fn f32_layout_accepts_fp32_multiple_of_four() {
    let buf = TensorBuffer {
        name: "test".to_string(),
        data: vec![0u8; 24],
        shape: vec![1, 2, 3],
        precision: Precision::FP32,
    };
    assert!(buf.check_f32_layout().is_ok());
    assert_eq!(buf.element_size(), 4);
}

#[test]
fn empty_shape_is_zero_elements() {
    let buf = TensorBuffer {
        name: "test".to_string(),
        data: vec![],
        shape: vec![],
        precision: Precision::FP32,
    };
    assert_eq!(buf.num_elements(), 0);
    assert_eq!(buf.byte_size(), 0);
}

#[test]
fn allocate_buffers() {
    let mut bm = BufferManager::new();
    assert!(!bm.is_allocated());

    bm.allocate(&sample_engine_info()).unwrap();
    assert!(bm.is_allocated());

    let input = bm.input_buffer_mut().unwrap();
    assert_eq!(input.shape, vec![1, 3, 224, 224]);
    assert_eq!(input.data.len(), 3 * 224 * 224 * 4);
}

#[test]
fn release_buffers() {
    let mut bm = BufferManager::new();
    bm.allocate(&sample_engine_info()).unwrap();
    assert!(bm.is_allocated());

    bm.release();
    assert!(!bm.is_allocated());
}

#[test]
fn fp16_buffer_sizes() {
    let mut bm = BufferManager::new();
    let info = EngineInfo {
        name: "model".into(),
        precision: Precision::FP16,
        inputs: vec![TensorSpec { name: "input".to_string(), shape: vec![1, 3, 224, 224] }],
        outputs: vec![TensorSpec { name: "output".to_string(), shape: vec![1, 1000] }],
        memory_bytes: 0,
    };
    bm.allocate(&info).unwrap();
    let input = bm.input_buffer_mut().unwrap();
    assert_eq!(input.data.len(), 3 * 224 * 224 * 2);
}

#[test]
fn allocated_buffers_are_zeroed_and_valid() {
    let mut bm = BufferManager::new();
    bm.allocate(&sample_engine_info()).unwrap();
    let out = bm.output_buffer().unwrap();
    assert_eq!(out.name, "output");
    assert_eq!(out.data.len(), 4000);
    assert!(out.data.iter().all(|b| *b == 0));
    assert!(out.validate().is_ok());
}

#[test]
fn engine_manager_load_then_infer() {
    let mut em = EngineManager::new("ti").unwrap();
    assert_eq!(em.backend_name(), "cpu");
    assert!(em.engine_info().is_none());
    let info = em.load_engine("/models/resnet.onnx", true).unwrap();
    assert_eq!(info.name, "resnet");
    assert_eq!(em.engine_info_owned().unwrap().name, "resnet");
    let input = TensorBuffer {
        name: "input".into(),
        data: vec![0u8; 3 * 224 * 224 * 4],
        shape: vec![1, 3, 224, 224],
        precision: Precision::FP32,
    };
    let out = em.infer(&[input], score_bytes()).unwrap();
    assert_eq!(out[0].shape, vec![1, 1000]);
    assert_eq!(&out[0].data[0..4], &score_bytes());
    em.release().unwrap();
    assert!(em.engine_info_owned().is_none());
}

#[test]
fn engine_manager_missing_file_keeps_state() {
    let mut em = EngineManager::new("cpu").unwrap();
    let e = em.load_engine("/nope/model.onnx", false).unwrap_err();
    assert_eq!(e.to_string(), "Engine load failed: Model file not found: /nope/model.onnx");
    assert!(em.engine_info_owned().is_none());
    assert!(!em.get_backend().is_ready());
}

#[test]
fn buffers_exist_together() {
    let mut bm = BufferManager::new();
    assert_eq!(bm.input_buffer_mut().is_some(), bm.output_buffer().is_some());
    bm.allocate(&sample_engine_info()).unwrap();
    assert!(bm.input_buffer_mut().is_some() && bm.output_buffer().is_some());
    bm.release();
    assert!(bm.input_buffer_mut().is_none() && bm.output_buffer().is_none());
}

#[test]
fn engine_manager_backend_readiness() {
    let mut em = EngineManager::new("cpu").unwrap();
    assert!(!em.get_backend().is_ready());
    em.load_engine("/m/model.onnx", true).unwrap();
    assert!(em.get_backend().is_ready());
    em.release().unwrap();
    assert!(!em.get_backend().is_ready());
}
