use magna_middleware::utils::errors::{default_backend, MiddlewareConfig, MiddlewareError, ModelMetadata, Precision};
use magna_middleware::utils::logging::{default_level, LogConfig, LogFormat};

#[test]
fn error_display_messages() {
    let e = MiddlewareError::InvalidStateTransition { from: "Uninitialized".into(), to: "Ready".into() };
    assert!(e.to_string().contains("Uninitialized"));
    assert!(e.to_string().contains("Ready"));
}

#[test]
fn precision_display() {
    assert_eq!(Precision::FP32.to_string(), "FP32");
    assert_eq!(Precision::FP8.to_string(), "FP8");
}

#[test]
fn precision_element_size() {
    assert_eq!(Precision::FP32.element_size(), 4);
    assert_eq!(Precision::FP16.element_size(), 2);
    assert_eq!(Precision::INT8.element_size(), 1);
    assert_eq!(Precision::FP8.element_size(), 1);
}

#[test]
fn precision_from_str() {
    assert_eq!("fp32".parse::<Precision>().unwrap(), Precision::FP32);
    assert_eq!("FP16".parse::<Precision>().unwrap(), Precision::FP16);
    assert_eq!("int8".parse::<Precision>().unwrap(), Precision::INT8);
    assert_eq!("half".parse::<Precision>().unwrap(), Precision::FP16);
    assert!("banana".parse::<Precision>().is_err());
}

#[test]
fn config_default_values() {
    let cfg = MiddlewareConfig::default();
    assert_eq!(cfg.backend, "auto");
    assert_eq!(cfg.precision, Precision::FP32);
    assert_eq!(cfg.warmup_runs, 3);
    assert!(!cfg.debug);
}

#[test]
fn model_metadata_default() {
    let meta = ModelMetadata::default();
    assert_eq!(meta.name, "unknown");
    assert!(meta.inputs.is_empty());
    assert!(meta.outputs.is_empty());
}

#[test]
fn unknown_precision_message_quotes_lowercased_name() {
    let e = Precision::parse("BaNaNa").unwrap_err();
    assert_eq!(
        e.to_string(),
        "Configuration error: Unknown precision 'banana'. Expected: fp32, fp16, int8, fp8"
    );
    assert_eq!(Precision::parse("Float8").unwrap(), Precision::FP8);
    assert_eq!(Precision::parse("I8").unwrap(), Precision::INT8);
}

#[test]
fn precision_names_round_trip() {
    for p in [Precision::FP32, Precision::FP16, Precision::INT8, Precision::FP8] {
        assert_eq!(Precision::parse(p.as_str()).unwrap(), p);
        assert_eq!(Precision::parse(p.display_str()).unwrap(), p);
    }
}

#[test]
fn every_error_variant_renders() {
    let cases: Vec<(MiddlewareError, &str)> = vec![
        (MiddlewareError::InvalidState { required: "Ready".into(), current: "Initialized".into() },
         "Operation requires state 'Ready', but current state is 'Initialized'"),
        (MiddlewareError::EngineNotLoaded, "Engine not loaded"),
        (MiddlewareError::BackendUnavailable("x".into()), "Backend 'x' is not available on this platform"),
        (MiddlewareError::FfiError { backend: "ti".into(), message: "boom".into() }, "FFI error in backend 'ti': boom"),
        (MiddlewareError::Io("disk".into()), "I/O error: disk"),
        (MiddlewareError::InputExhausted("eof".into()), "Input source exhausted or disconnected: eof"),
        (MiddlewareError::OptimizationFailed("x".into()), "Model optimization failed: x"),
        (MiddlewareError::DependencyMissing("x".into()), "Dependency missing: x"),
        (MiddlewareError::Internal("x".into()), "Internal error: x"),
        (MiddlewareError::ModelLoadFailed("x".into()), "Model loading failed: x"),
        (MiddlewareError::PreprocessingFailed("x".into()), "Preprocessing failed: x"),
        (MiddlewareError::PostprocessingFailed("x".into()), "Postprocessing failed: x"),
        (MiddlewareError::ImageLoadFailed("x".into()), "Image load failed: x"),
        (MiddlewareError::HardwareDetectionFailed("x".into()), "Hardware detection failed: x"),
        (MiddlewareError::UnsupportedHardware("x".into()), "Unsupported hardware: x"),
        (MiddlewareError::BufferAllocationFailed("x".into()), "Buffer allocation failed: x"),
        (MiddlewareError::ConfigError("x".into()), "Configuration error: x"),
    ];
    for (e, m) in cases {
        assert_eq!(e.to_string(), m);
    }
}

#[test]
fn config_clone_is_equal_and_defaults() {
    let cfg = MiddlewareConfig::default();
    let c = cfg.clone();
    assert_eq!(c.grpc_address, "127.0.0.1:50051");
    assert_eq!(c.labels_path, None);
    assert_eq!(default_backend(), "auto");
}

#[test]
fn log_config_defaults_and_format_names() {
    let c = LogConfig::default();
    assert_eq!(c.format, LogFormat::Pretty);
    assert_eq!(c.default_level, "info");
    assert_eq!(LogFormat::from_name("json"), LogFormat::Json);
    assert_eq!(LogFormat::from_name("compact"), LogFormat::Compact);
    assert_eq!(LogFormat::from_name("JSON"), LogFormat::Pretty);
    assert_eq!(default_level(true), "debug");
    assert_eq!(default_level(false), "info");
}
