use magna_middleware::backends::cpu::adapter::CpuAdapter;
use magna_middleware::backends::nvidia::adapter::{infer_shape_from_elements, NvidiaAdapter, NvidiaHardware};
use magna_middleware::backends::qualcomm::adapter::{QualcommAdapter, QualcommRuntime};
use magna_middleware::backends::ti::adapter::TiAdapter;
use magna_middleware::inference::traits::{InferenceBackend, TensorBuffer};
use magna_middleware::utils::errors::Precision;

fn score_bytes() -> [u8; 4] {
    (1.0f32 / 1000.0).to_le_bytes()
}

fn dummy_input() -> TensorBuffer {
    TensorBuffer {
        name: "input".into(),
        data: vec![0u8; 3 * 224 * 224 * 4],
        shape: vec![1, 3, 224, 224],
        precision: Precision::FP32,
    }
}

fn small_input() -> TensorBuffer {
    let data: Vec<u8> = [0.0f32; 6].iter().flat_map(|v| v.to_le_bytes()).collect();
    TensorBuffer { name: "test".into(), data, shape: vec![1, 2, 3], precision: Precision::FP32 }
}

fn backend_lifecycle(adapter: &mut dyn InferenceBackend, engine_file: &str) {
    assert!(!adapter.is_ready());

    let info = adapter.load_engine(engine_file, true).unwrap();
    assert!(!info.name.is_empty());
    assert_eq!(info.inputs[0].shape, vec![1, 3, 224, 224]);
    assert_eq!(info.outputs[0].shape, vec![1, 1000]);

    adapter.allocate_buffers().unwrap();
    assert!(adapter.is_ready());

    let output = adapter.infer(&[dummy_input()], score_bytes()).unwrap();
    assert_eq!(output[0].shape, vec![1, 1000]);
    assert_eq!(output[0].precision, Precision::FP32);
    assert!(!output[0].data.is_empty());

    let scores: Vec<f32> = output[0]
        .data
        .chunks_exact(4)
        .map(|b| f32::from_le_bytes([b[0], b[1], b[2], b[3]]))
        .collect();
    assert_eq!(scores.len(), 1000);
    assert!((scores[0] - 0.001).abs() < 1e-6);

    assert!(adapter.engine_info().is_some());

    adapter.release().unwrap();
    assert!(!adapter.is_ready());
    assert!(adapter.engine_info().is_none());
}

#[test]
fn cpu_adapter_basics() {
    let a = CpuAdapter::new();
    assert_eq!(a.backend_name(), "cpu");
    assert!(!a.is_ready());
}

#[test]
fn cpu_adapter_default() {
    let a = CpuAdapter::default();
    assert!(a.engine_info().is_none());
}

#[test]
fn cpu_load_nonexistent_fails() {
    let mut a = CpuAdapter::new();
    assert!(a.load_engine("/nonexistent/model.onnx", false).is_err());
}

#[test]
fn nvidia_adapter_create() {
    let a = NvidiaAdapter::new(NvidiaHardware::Orin);
    assert_eq!(a.backend_name(), "nvidia");
    assert!(!a.is_ready());
    assert_eq!(a.max_precision(), Precision::FP16);
}

#[test]
fn nvidia_adapter_thor() {
    let a = NvidiaAdapter::new(NvidiaHardware::Thor);
    assert_eq!(a.max_precision(), Precision::FP8);
}

#[test]
fn nvidia_adapter_default() {
    let a = NvidiaAdapter::default();
    assert_eq!(a.hardware(), NvidiaHardware::Orin);
}

#[test]
fn load_nonexistent_engine_fails() {
    let mut a = NvidiaAdapter::new(NvidiaHardware::Orin);
    assert!(a.load_engine("/does/not/exist.engine", false).is_err());
}

#[test]
fn adapter_infer_without_load_fails() {
    let a = NvidiaAdapter::new(NvidiaHardware::Orin);
    assert!(a.infer(&[small_input()], score_bytes()).is_err());
}

#[test]
fn qualcomm_adapter_basics() {
    let a = QualcommAdapter::new();
    assert_eq!(a.backend_name(), "qualcomm");
    assert!(!a.is_ready());
}

#[test]
fn qualcomm_adapter_default() {
    let a = QualcommAdapter::default();
    assert!(a.engine_info().is_none());
}

#[test]
fn qualcomm_load_nonexistent_fails() {
    let mut a = QualcommAdapter::new();
    assert!(a.load_engine("/does/not/exist.bin", false).is_err());
}

#[test]
fn qualcomm_infer_without_load_fails() {
    let a = QualcommAdapter::new();
    assert!(a.infer(&[small_input()], score_bytes()).is_err());
}

#[test]
fn ti_adapter_basics() {
    let a = TiAdapter::new();
    assert_eq!(a.backend_name(), "ti");
    assert!(!a.is_ready());
}

#[test]
fn ti_adapter_default() {
    let a = TiAdapter::default();
    assert!(a.engine_info().is_none());
}

#[test]
fn ti_infer_without_load_fails() {
    let a = TiAdapter::new();
    assert!(a.infer(&[small_input()], score_bytes()).is_err());
}

#[test]
fn nvidia_adapter_lifecycle() {
    let mut adapter = NvidiaAdapter::new(NvidiaHardware::Orin);
    backend_lifecycle(&mut adapter, "/tmp/model.engine");
}

#[test]
fn nvidia_adapter_with_thor() {
    let mut adapter = NvidiaAdapter::new(NvidiaHardware::Thor);
    assert_eq!(adapter.max_precision(), Precision::FP8);
    backend_lifecycle(&mut adapter, "/tmp/model.engine");
}

#[test]
fn qualcomm_adapter_lifecycle() {
    let mut adapter = QualcommAdapter::new();
    backend_lifecycle(&mut adapter, "/tmp/model.bin");
}

#[test]
fn ti_adapter_lifecycle() {
    let mut adapter = TiAdapter::new();
    backend_lifecycle(&mut adapter, "/tmp/model.tidl");
}

#[test]
fn cpu_adapter_lifecycle() {
    let mut adapter = CpuAdapter::new();
    backend_lifecycle(&mut adapter, "/tmp/model.onnx");
}

#[test]
fn backend_names() {
    assert_eq!(NvidiaAdapter::new(NvidiaHardware::Orin).backend_name(), "nvidia");
    assert_eq!(QualcommAdapter::new().backend_name(), "qualcomm");
    assert_eq!(TiAdapter::new().backend_name(), "ti");
    assert_eq!(CpuAdapter::new().backend_name(), "cpu");
}

#[test]
fn load_nonexistent_fails_all_adapters() {
    let mut nv = NvidiaAdapter::new(NvidiaHardware::Orin);
    let mut qc = QualcommAdapter::new();
    let mut cpu = CpuAdapter::new();

    assert!(nv.load_engine("/does/not/exist.engine", false).is_err());
    assert!(qc.load_engine("/does/not/exist.bin", false).is_err());
    assert!(cpu.load_engine("/does/not/exist.onnx", false).is_err());
}

#[test]
fn backend_tests_infer_without_load_fails() {
    let nv = NvidiaAdapter::new(NvidiaHardware::Orin);
    let qc = QualcommAdapter::new();
    let ti = TiAdapter::new();
    let cpu = CpuAdapter::new();
    let input = dummy_input();

    assert!(nv.infer(std::slice::from_ref(&input), score_bytes()).is_err());
    assert!(qc.infer(std::slice::from_ref(&input), score_bytes()).is_err());
    assert!(ti.infer(std::slice::from_ref(&input), score_bytes()).is_err());
    assert!(cpu.infer(std::slice::from_ref(&input), score_bytes()).is_err());
}

#[test]
fn default_trait_implementations() {
    let _nv = NvidiaAdapter::default();
    let _qc = QualcommAdapter::default();
    let _ti = TiAdapter::default();
    let _cpu = CpuAdapter::default();
}

#[test]
fn load_error_messages_per_adapter() {
    let mut nv = NvidiaAdapter::new(NvidiaHardware::Orin);
    let mut cpu = CpuAdapter::new();
    assert_eq!(
        nv.load_engine("/x/a.engine", false).unwrap_err().to_string(),
        "Engine load failed: Engine file not found: /x/a.engine"
    );
    assert_eq!(
        cpu.load_engine("/x/a.onnx", false).unwrap_err().to_string(),
        "Engine load failed: Model file not found: /x/a.onnx"
    );
}

#[test]
fn engine_named_after_file_stem() {
    let mut cpu = CpuAdapter::new();
    assert_eq!(cpu.load_engine("/models/mobilenet.onnx", true).unwrap().name, "mobilenet");
    let mut ti = TiAdapter::new();
    assert_eq!(ti.load_engine("/models/mobilenet.tidl", true).unwrap().name, "sim");
}

#[test]
fn qualcomm_runtime_follows_lifecycle() {
    let mut qc = QualcommAdapter::new();
    assert_eq!(qc.runtime(), QualcommRuntime::Unselected);
    qc.load_engine("/m/model.bin", true).unwrap();
    assert_eq!(qc.runtime(), QualcommRuntime::Simulated);
    qc.release().unwrap();
    assert_eq!(qc.runtime(), QualcommRuntime::Unselected);
}

#[test]
fn infer_requires_allocation_and_inputs() {
    let mut cpu = CpuAdapter::new();
    cpu.load_engine("/m/model.onnx", true).unwrap();
    assert_eq!(
        cpu.infer(&[dummy_input()], score_bytes()).unwrap_err().to_string(),
        "Inference execution failed: Buffers not allocated"
    );
    cpu.allocate_buffers().unwrap();
    assert_eq!(
        cpu.infer(&[], score_bytes()).unwrap_err().to_string(),
        "Inference execution failed: No inputs provided"
    );
    assert!(cpu.infer(&[small_input()], score_bytes()).is_ok());
}

#[test]
fn cpu_rejects_mis_sized_input() {
    let mut cpu = CpuAdapter::new();
    cpu.load_engine("/m/model.onnx", true).unwrap();
    cpu.allocate_buffers().unwrap();
    let bad = TensorBuffer { name: "i".into(), data: vec![0u8; 5], shape: vec![1, 2], precision: Precision::FP32 };
    let e = cpu.infer(&[bad], score_bytes()).unwrap_err();
    assert!(e.to_string().starts_with("Inference execution failed: Input validation: "));
}

#[test]
fn shape_guess_from_element_count() {
    assert_eq!(infer_shape_from_elements(3 * 224 * 224), vec![1, 3, 224, 224]);
    assert_eq!(infer_shape_from_elements(3 * 640 * 640), vec![1, 3, 640, 640]);
    assert_eq!(infer_shape_from_elements(1000), vec![1, 1000]);
}

#[test]
fn readiness_unchanged_by_failed_load() {
    let mut qc = QualcommAdapter::new();
    assert!(!qc.is_ready());
    assert!(qc.load_engine("/does/not/exist.bin", false).is_err());
    assert!(!qc.is_ready());
    qc.load_engine("/m/a.bin", true).unwrap();
    qc.allocate_buffers().unwrap();
    assert!(qc.is_ready());
    assert!(qc.load_engine("/does/not/exist.bin", false).is_err());
    assert!(qc.is_ready());
}
