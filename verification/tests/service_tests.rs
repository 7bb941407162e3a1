use magna_middleware::aot::{
    aot_trtexec_args, deploy_backend, qnn_convert_args, qnn_converter_path, server_binary_source, server_build_args,
    snpe_convert_args, snpe_converter_path, target_vendor, tidl_compile_args, tidl_compiler_path,
};
use magna_middleware::api::service::{
    check_request_inputs, dims_from_wire, dims_to_wire, health_ready, health_state, inference_failure_message,
    precision_from_datatype, RequestCounter,
};
use magna_middleware::evaluation::{class_order, is_jpeg_file_name, top_hits};
use magna_middleware::hardware::profile::Vendor;
use magna_middleware::lifecycle::state_manager::State;
use magna_middleware::api::public_api::Middleware;
use magna_middleware::api::service::{health_report, tensor_from_wire, tensor_to_wire, WireTensor};
use magna_middleware::utils::errors::{MiddlewareConfig, MiddlewareError, Precision};

#[test]
fn request_ids_count_from_one() {
    let mut c = RequestCounter::new();
    assert_eq!(c.next_request_id(), 1);
    assert_eq!(c.next_request_id(), 2);
    assert_eq!(c.next_request_id(), 3);
}

#[test]
fn datatype_mapping_defaults_to_fp32() {
    assert_eq!(precision_from_datatype("FP16"), Precision::FP16);
    assert_eq!(precision_from_datatype("INT8"), Precision::INT8);
    assert_eq!(precision_from_datatype("FP8"), Precision::FP8);
    assert_eq!(precision_from_datatype("fp16"), Precision::FP32);
    assert_eq!(precision_from_datatype("BF16"), Precision::FP32);
}

#[test]
fn wire_dims_round_trip() {
    let d = dims_from_wire(&vec![1, 3, 224, 224]);
    assert_eq!(d, vec![1usize, 3, 224, 224]);
    assert_eq!(dims_to_wire(&d), vec![1i64, 3, 224, 224]);
}

#[test]
fn request_and_health_fields() {
    assert_eq!(check_request_inputs(0), Err("inputs is empty".to_string()));
    assert!(check_request_inputs(1).is_ok());
    assert!(health_ready(State::Ready));
    assert!(!health_ready(State::Initialized));
    assert_eq!(health_state(State::EngineLoaded), "EngineLoaded");
    assert_eq!(
        inference_failure_message(&MiddlewareError::EngineNotLoaded),
        "Inference failed: Engine not loaded"
    );
}

#[test]
fn hardware_names_select_vendors() {
    assert_eq!(target_vendor("orin"), Some(Vendor::Nvidia));
    assert_eq!(target_vendor("Thor"), Some(Vendor::Nvidia));
    assert_eq!(target_vendor("snapdragon"), Some(Vendor::Qualcomm));
    assert_eq!(target_vendor("jacinto"), Some(Vendor::TexasInstruments));
    assert_eq!(target_vendor("cpu"), Some(Vendor::Cpu));
    assert_eq!(target_vendor("tpu"), None);
    assert_eq!(deploy_backend(Vendor::TexasInstruments), "ti");
    assert_eq!(deploy_backend(Vendor::Unknown), "cpu");
}

#[test]
fn deployment_commands() {
    assert_eq!(
        aot_trtexec_args("m.onnx", "m.engine", Precision::FP16, true),
        vec!["--onnx=m.onnx", "--saveEngine=m.engine", "--fp16", "--verbose"]
    );
    assert_eq!(aot_trtexec_args("m.onnx", "m.engine", Precision::FP32, false).len(), 2);
    assert_eq!(qnn_converter_path("/q", true), "/q/bin/aarch64-linux-clang/qnn-onnx-converter");
    assert_eq!(
        qnn_convert_args("m.onnx", "m.bin", Precision::FP16),
        vec!["--input_network", "m.onnx", "--output_path", "m.bin", "--float_bitwidth", "16"]
    );
    assert_eq!(snpe_converter_path("/s", false), "/s/bin/x86_64-linux-clang/snpe-onnx-to-dlc");
    assert_eq!(snpe_convert_args("m.onnx", "m.dlc"), vec!["-d", "m.onnx", "-o", "m.dlc"]);
    assert_eq!(tidl_compiler_path("/t"), "/t/tidl_model_import.out");
    assert_eq!(tidl_compile_args("m.onnx", "m.tidl"), vec!["m.onnx", "m.tidl"]);
    assert_eq!(
        server_build_args(Vendor::Qualcomm, Some("aarch64-unknown-linux-gnu")),
        vec!["build", "--release", "--bin", "magna_server", "--features", "qualcomm", "--target", "aarch64-unknown-linux-gnu"]
    );
    assert_eq!(server_build_args(Vendor::Cpu, None), vec!["build", "--release", "--bin", "magna_server"]);
    assert_eq!(server_binary_source(None), "target/release/magna_server");
    assert_eq!(server_binary_source(Some("x")), "target/x/release/magna_server");
}

#[test]
fn evaluation_helpers() {
    assert!(is_jpeg_file_name("n01440764_10026.JPEG"));
    assert!(is_jpeg_file_name("a.jpg"));
    assert!(!is_jpeg_file_name("a.png"));
    assert_eq!(
        class_order(vec!["n02".to_string(), "n01".to_string(), "n10".to_string()]),
        vec!["n01", "n02", "n10"]
    );
    assert_eq!(top_hits(&vec![3, 1, 4, 1, 5], 3), (true, true));
    assert_eq!(top_hits(&vec![3, 1, 4, 1, 5], 5), (false, true));
    assert_eq!(top_hits(&vec![3, 1, 4, 1, 5], 9), (false, false));
}

#[test]
fn wire_tensor_conversions() {
    let w = WireTensor { name: "input".into(), datatype: "FP16".into(), shape: vec![1, 2], raw_data: vec![1, 2, 3, 4] };
    let b = tensor_from_wire(&w);
    assert_eq!(b.name, "input");
    assert_eq!(b.precision, Precision::FP16);
    assert_eq!(b.shape, vec![1, 2]);
    assert_eq!(b.data, vec![1, 2, 3, 4]);
    let back = tensor_to_wire(&b);
    assert_eq!(back.datatype, "FP16");
    assert_eq!(back.shape, vec![1, 2]);
    let odd = WireTensor { name: "x".into(), datatype: "BF16".into(), shape: vec![3], raw_data: vec![] };
    assert_eq!(tensor_from_wire(&odd).precision, Precision::FP32);
}

#[test]
fn health_report_follows_lifecycle() {
    let mut mw = Middleware::new();
    let h = health_report(&mw);
    assert!(!h.ready);
    assert_eq!(h.state, "Uninitialized");
    assert_eq!(h.backend, "none");
    assert_eq!(h.model_name, "");
    mw.initialize(MiddlewareConfig::default(), None).unwrap();
    mw.load_engine("/models/mobilenet.engine", true).unwrap();
    let h = health_report(&mw);
    assert!(h.ready);
    assert_eq!(h.state, "Ready");
    assert_eq!(h.backend, "cpu");
    assert_eq!(h.model_name, "mobilenet");
    assert_eq!(h.inference_count, 0);
}
