use magna_middleware::api::public_api::Middleware;
use magna_middleware::inference::traits::TensorBuffer;
use magna_middleware::lifecycle::state_manager::State;
use magna_middleware::utils::errors::{MiddlewareConfig, Precision};

fn score_bytes() -> [u8; 4] {
    (1.0f32 / 1000.0).to_le_bytes()
}

fn image_input() -> TensorBuffer {
    TensorBuffer {
        name: "input".to_string(),
        data: vec![0u8; 3 * 224 * 224 * 4],
        shape: vec![1, 3, 224, 224],
        precision: Precision::FP32,
    }
}

fn simulated_config() -> MiddlewareConfig {
    MiddlewareConfig { backend: "simulated".into(), precision: Precision::FP32, ..Default::default() }
}

#[test]
fn new_middleware_is_uninitialized() {
    let mw = Middleware::new();
    assert_eq!(mw.state(), State::Uninitialized);
}

#[test]
fn initialize_with_simulated_backend() {
    let mut mw = Middleware::new();
    mw.initialize(simulated_config(), None).unwrap();
    assert_eq!(mw.state(), State::Initialized);
}

#[test]
fn full_lifecycle() {
    let mut mw = Middleware::new();
    mw.initialize(simulated_config(), None).unwrap();

    mw.load_engine("/tmp/fake.engine", true).unwrap();
    assert_eq!(mw.state(), State::Ready);

    let output = mw.infer(&[image_input()], score_bytes()).unwrap();
    assert_eq!(output[0].shape, vec![1, 1000]);

    mw.shutdown().unwrap();
    assert_eq!(mw.state(), State::Uninitialized);
}

#[test]
fn infer_before_ready_fails() {
    let mut mw = Middleware::new();
    mw.initialize(MiddlewareConfig { backend: "simulated".into(), ..Default::default() }, None).unwrap();

    let data: Vec<u8> = [0.0f32; 6].iter().flat_map(|v| v.to_le_bytes()).collect();
    let input = TensorBuffer { name: "input".into(), data, shape: vec![1, 2, 3], precision: Precision::FP32 };
    assert!(mw.infer(&[input], score_bytes()).is_err());
}

#[test]
fn full_inference_pipeline() {
    let mut mw = Middleware::new();
    assert_eq!(mw.state(), State::Uninitialized);

    let config = MiddlewareConfig {
        backend: "simulated".into(),
        precision: Precision::FP32,
        warmup_runs: 0,
        debug: true,
        labels_path: None,
        model_path: None,
        grpc_address: String::new(),
    };
    mw.initialize(config, None).unwrap();
    assert_eq!(mw.state(), State::Initialized);

    let info = mw.load_engine("/tmp/fake_trt.engine", true).unwrap();
    assert_eq!(mw.state(), State::Ready);
    assert_eq!(info.inputs[0].shape, vec![1, 3, 224, 224]);
    assert_eq!(info.outputs[0].shape, vec![1, 1000]);

    let output = mw.infer(&[image_input()], score_bytes()).unwrap();
    assert_eq!(output[0].shape, vec![1, 1000]);
    assert_eq!(output[0].precision, Precision::FP32);

    mw.shutdown().unwrap();
    assert_eq!(mw.state(), State::Uninitialized);
}

#[test]
fn multiple_inferences() {
    let mut mw = Middleware::new();
    mw.initialize(simulated_config(), None).unwrap();
    mw.load_engine("/tmp/fake_trt.engine", true).unwrap();

    let input = image_input();
    for _ in 0..10 {
        mw.infer(std::slice::from_ref(&input), score_bytes()).unwrap();
    }

    mw.shutdown().unwrap();
}

#[test]
fn reload_engine_while_ready() {
    let mut mw = Middleware::new();
    mw.initialize(MiddlewareConfig { backend: "simulated".into(), ..Default::default() }, None).unwrap();

    mw.load_engine("/tmp/engine1.engine", true).unwrap();
    assert_eq!(mw.state(), State::Ready);

    mw.load_engine("/tmp/engine2.engine", true).unwrap();
    assert_eq!(mw.state(), State::Ready);
    assert_eq!(mw.engine_info().unwrap().name, "engine2");

    mw.shutdown().unwrap();
}

#[test]
fn load_before_initialize_is_refused() {
    let mut mw = Middleware::new();
    let e = mw.load_engine("/tmp/a.engine", true).unwrap_err();
    assert_eq!(
        e.to_string(),
        "Operation requires state 'at least Initialized', but current state is 'Uninitialized'"
    );
    assert_eq!(mw.state(), State::Uninitialized);
    assert_eq!(mw.backend_name(), "none");
}

#[test]
fn failed_load_moves_to_error_and_blocks_ready() {
    let mut mw = Middleware::new();
    mw.initialize(simulated_config(), None).unwrap();
    assert_eq!(mw.backend_name(), "cpu");
    let e = mw.load_engine("/missing/model.onnx", false).unwrap_err();
    assert_eq!(e.to_string(), "Engine load failed: Model file not found: /missing/model.onnx");
    assert_eq!(mw.state(), State::Error);
    let e = mw.load_engine("/tmp/model.onnx", true).unwrap_err();
    assert_eq!(e.to_string(), "Invalid state transition: cannot move from Error to Ready");
    assert_eq!(mw.state(), State::Error);
    assert!(mw.infer(&[image_input()], score_bytes()).is_err());
    mw.shutdown().unwrap();
    assert_eq!(mw.state(), State::Uninitialized);
}

#[test]
fn labels_from_file_text_and_read_failure() {
    let mut mw = Middleware::new();
    let cfg = MiddlewareConfig { labels_path: Some("/data/labels.txt".into()), ..Default::default() };
    let e = mw.initialize(cfg, Some(Err("No such file or directory (os error 2)".into()))).unwrap_err();
    assert_eq!(
        e.to_string(),
        "Configuration error: Failed to load labels from '/data/labels.txt': No such file or directory (os error 2)"
    );
    assert_eq!(mw.state(), State::Initialized);
    let e = mw.load_engine("/tmp/a.engine", true).unwrap_err();
    assert_eq!(e.to_string(), "Internal error: Engine manager not initialized");

    let mut ok = Middleware::new();
    let cfg = MiddlewareConfig { labels_path: Some("/data/labels.txt".into()), ..Default::default() };
    ok.initialize(cfg, Some(Ok("cat\n dog \n\nfish\n".into()))).unwrap();
    assert_eq!(ok.config().labels_path, Some("/data/labels.txt".to_string()));
}

#[test]
fn second_initialize_is_refused() {
    let mut mw = Middleware::new();
    mw.initialize(simulated_config(), None).unwrap();
    let e = mw.initialize(simulated_config(), None).unwrap_err();
    assert_eq!(e.to_string(), "Invalid state transition: cannot move from Initialized to Initialized");
    assert_eq!(mw.state(), State::Initialized);
}

#[test]
fn shutdown_when_uninitialized_is_refused() {
    let mut mw = Middleware::default();
    let e = mw.shutdown().unwrap_err();
    assert_eq!(e.to_string(), "Invalid state transition: cannot move from Uninitialized to Uninitialized");
    assert_eq!(mw.state(), State::Uninitialized);
}

#[test]
fn ready_middleware_accepts_well_sized_input() {
    let mut mw = Middleware::new();
    mw.initialize(simulated_config(), None).unwrap();
    mw.load_engine("/tmp/m.onnx", true).unwrap();
    let input = TensorBuffer { name: "x".into(), data: vec![0u8; 2], shape: vec![2], precision: Precision::INT8 };
    let out = mw.infer(&[input], score_bytes()).unwrap();
    assert_eq!(out.len(), 1);
    assert_eq!(out[0].data.len(), 4000);
    assert!(out[0].data.chunks_exact(4).all(|c| c == score_bytes()));
}
