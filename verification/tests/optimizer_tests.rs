use magna_middleware::hardware::profile::{HardwareProfile, Vendor};
use magna_middleware::inference::optimizer::{ModelOptimizer, OptimizationStep, OptimizerConfig};
use magna_middleware::utils::errors::{MiddlewareError, Precision};

fn test_profile(vendor: Vendor) -> HardwareProfile {
    HardwareProfile {
        vendor,
        device_name: "Test Device".into(),
        supports_fp32: true,
        supports_fp16: true,
        supports_int8: true,
        supports_fp8: false,
        accelerators: vec![],
    }
}

#[test]
fn engine_cache_path_nvidia_int8() {
    let config = OptimizerConfig::default();
    let path = ModelOptimizer::engine_output_path(
        "/models/mobilenet.onnx",
        &test_profile(Vendor::Nvidia),
        Precision::INT8,
        &config,
    );
    assert!(path.contains("mobilenet_nvidia_optimized_int8.engine"));
}

#[test]
fn engine_cache_path_qualcomm_fp16() {
    let config = OptimizerConfig::default();
    let path = ModelOptimizer::engine_output_path(
        "/models/mobilenet.onnx",
        &test_profile(Vendor::Qualcomm),
        Precision::FP16,
        &config,
    );
    assert!(path.contains("mobilenet_qualcomm_optimized_fp16.bin"));
}

#[test]
fn engine_cache_path_ti_int8() {
    let config = OptimizerConfig::default();
    let path = ModelOptimizer::engine_output_path(
        "/models/efficientnet.onnx",
        &test_profile(Vendor::TexasInstruments),
        Precision::INT8,
        &config,
    );
    assert!(path.contains("efficientnet_ti_optimized_int8.tidl"));
}

#[test]
fn engine_cache_paths_differ_per_precision() {
    let config = OptimizerConfig::default();
    let profile = test_profile(Vendor::Nvidia);
    let p1 = ModelOptimizer::engine_output_path("/m/model.onnx", &profile, Precision::INT8, &config);
    let p2 = ModelOptimizer::engine_output_path("/m/model.onnx", &profile, Precision::FP16, &config);
    assert_ne!(p1, p2);
}

#[test]
fn engine_cache_paths_differ_per_vendor() {
    let config = OptimizerConfig::default();
    let p1 = ModelOptimizer::engine_output_path("/m/model.onnx", &test_profile(Vendor::Nvidia), Precision::INT8, &config);
    let p2 = ModelOptimizer::engine_output_path("/m/model.onnx", &test_profile(Vendor::Qualcomm), Precision::INT8, &config);
    assert_ne!(p1, p2);
}

#[test]
fn engine_path_is_exact_and_honours_output_dir() {
    let mut config = OptimizerConfig::default();
    let p = ModelOptimizer::engine_output_path("/models/mobilenet.onnx", &test_profile(Vendor::Cpu), Precision::FP32, &config);
    assert_eq!(p, "/models/mobilenet_cpu_optimized_fp32.engine");
    let p = ModelOptimizer::engine_output_path("model.onnx", &test_profile(Vendor::Unknown), Precision::FP8, &config);
    assert_eq!(p, "model_unknown_optimized_fp8.engine");
    config.output_dir = Some("/cache".into());
    let p = ModelOptimizer::engine_output_path("/models/mobilenet.onnx", &test_profile(Vendor::Qualcomm), Precision::INT8, &config);
    assert_eq!(p, "/cache/mobilenet_qualcomm_optimized_int8.bin");
}

#[test]
fn all_vendor_precision_paths_distinct() {
    let config = OptimizerConfig::default();
    let vendors = [Vendor::Nvidia, Vendor::Qualcomm, Vendor::TexasInstruments, Vendor::Cpu, Vendor::Unknown];
    let precisions = [Precision::FP32, Precision::FP16, Precision::INT8, Precision::FP8];
    let mut seen: Vec<String> = Vec::new();
    for v in vendors {
        for p in precisions {
            let path = ModelOptimizer::engine_output_path("/m/model.onnx", &test_profile(v), p, &config);
            assert!(!seen.contains(&path));
            seen.push(path);
        }
    }
    assert_eq!(seen.len(), 20);
}

#[test]
fn nvidia_command_has_orin_flags() {
    let config = OptimizerConfig {
        workspace_mb: 4096,
        enable_dla: true,
        dla_core: 0,
        enable_sparsity: true,
        num_streams: 2,
        ..Default::default()
    };

    let args = ModelOptimizer::build_nvidia_command("model.onnx", "model.engine", Precision::INT8, &config).unwrap();

    let joined = args.join(" ");
    assert!(joined.contains("--onnx=model.onnx"));
    assert!(joined.contains("--saveEngine=model.engine"));
    assert!(joined.contains("--int8"));
    assert!(joined.contains("--fp16"));
    assert!(joined.contains("--workspace=4096"));
    assert!(joined.contains("--tacticSources=+CUBLAS,+CUBLAS_LT,+CUDNN"));
    assert!(joined.contains("--useDLACore=0"));
    assert!(joined.contains("--allowGPUFallback"));
    assert!(joined.contains("--sparsity=enable"));
    assert!(joined.contains("--streams=2"));
    assert!(joined.contains("--precisionConstraints=prefer"));
}

#[test]
fn nvidia_command_fp32_no_precision_flags() {
    let config = OptimizerConfig::default();
    let args = ModelOptimizer::build_nvidia_command("model.onnx", "model.engine", Precision::FP32, &config).unwrap();

    let joined = args.join(" ");
    assert!(!joined.contains("--int8"));
    assert!(!joined.contains("--fp16"));
    assert!(joined.contains("--onnx=model.onnx"));
}

#[test]
fn trtexec_args_exact_order_with_calibration_cache() {
    let config = OptimizerConfig { num_streams: 1, workspace_mb: 2048, ..Default::default() };
    let args = ModelOptimizer::trtexec_args("m.onnx", "m.engine", Precision::INT8, &config, Some("/m/m_calibration.cache"));
    assert_eq!(
        args,
        vec![
            "--onnx=m.onnx", "--saveEngine=m.engine", "--workspace=2048", "--int8", "--fp16",
            "--calib=/m/m_calibration.cache", "--precisionConstraints=prefer",
            "--tacticSources=+CUBLAS,+CUBLAS_LT,+CUDNN", "--avgRuns=100", "--duration=10", "--verbose",
        ]
    );
    let fp8 = ModelOptimizer::trtexec_args("m.onnx", "m.engine", Precision::FP8, &config, Some("ignored"));
    assert_eq!(fp8[3], "--fp8");
    assert_eq!(fp8[4], "--fp16");
    assert_eq!(fp8.len(), 9);
}

#[test]
fn qualcomm_command_int8_has_quantization_flags() {
    let args = ModelOptimizer::build_qualcomm_command("model.onnx", "model.bin", Precision::INT8);
    let joined = args.join(" ");
    assert!(joined.contains("--input_network=model.onnx"));
    assert!(joined.contains("--act_bitwidth=8"));
    assert!(joined.contains("--weight_bitwidth=8"));
}

#[test]
fn qualcomm_command_fp32_no_quantization() {
    let args = ModelOptimizer::build_qualcomm_command("model.onnx", "model.bin", Precision::FP32);
    let joined = args.join(" ");
    assert!(!joined.contains("--act_bitwidth"));
}

#[test]
fn ti_command_int8_has_quantization() {
    let args = ModelOptimizer::build_ti_command("model.onnx", "/out/artifacts", Precision::INT8);
    let joined = args.join(" ");
    assert!(joined.contains("--modelType=onnx"));
    assert!(joined.contains("--quantization=1"));
    assert!(joined.contains("--activationBitWidth=8"));
    assert!(joined.contains("--weightBitWidth=8"));
}

#[test]
fn ti_command_fp16_no_quantization() {
    let args = ModelOptimizer::build_ti_command("model.onnx", "/out/artifacts", Precision::FP16);
    let joined = args.join(" ");
    assert!(joined.contains("--quantization=0"));
    assert!(!joined.contains("--activationBitWidth"));
}

#[test]
fn qualcomm_conversion_prefers_qnn() {
    let cmd = ModelOptimizer::qualcomm_conversion_command("m.onnx", "/o/m.bin", Precision::INT8, Some("/qnn"), Some("/snpe"), false).unwrap();
    assert_eq!(
        cmd,
        "/qnn/bin/x86_64-linux-clang/qnn-onnx-converter --input_network=m.onnx --output_path=/o/m.bin --input_list=calibration_list.txt --act_bitwidth=8 --weight_bitwidth=8 --bias_bitwidth=32"
    );
}

#[test]
fn qualcomm_conversion_snpe_two_steps() {
    let cmd = ModelOptimizer::qualcomm_conversion_command("m.onnx", "/o/m.bin", Precision::INT8, None, Some("/snpe"), true).unwrap();
    assert_eq!(
        cmd,
        "/snpe/bin/aarch64-linux-clang/snpe-onnx-to-dlc --input_network m.onnx --output_path /o/m.dlc && /snpe/bin/aarch64-linux-clang/snpe-dlc-quantize --input_dlc /o/m.dlc --output_dlc /o/m.bin --input_list calibration_list.txt"
    );
    let fp16 = ModelOptimizer::qualcomm_conversion_command("m.onnx", "/o/m.bin", Precision::FP16, None, Some("/snpe"), true).unwrap();
    assert_eq!(fp16, "/snpe/bin/aarch64-linux-clang/snpe-onnx-to-dlc --input_network m.onnx --output_path /o/m.dlc");
}

#[test]
fn qualcomm_conversion_without_sdk_fails() {
    let e = ModelOptimizer::qualcomm_conversion_command("m.onnx", "m.bin", Precision::FP32, None, None, false).unwrap_err();
    assert_eq!(
        e.to_string(),
        "Model optimization failed: Neither SNPE_ROOT nor QNN_SDK_ROOT is set. Install the Qualcomm Neural Processing SDK to enable optimization."
    );
}

#[test]
fn ti_import_command_and_artifacts() {
    let config = OptimizerConfig { calibration_dir: Some("/calib".into()), ..Default::default() };
    let (cmd, artifacts) = ModelOptimizer::ti_import_command("/m/net.onnx", "/o/net_ti_optimized_int8.tidl", Precision::INT8, &config, None, Some("/sdk")).unwrap();
    assert_eq!(artifacts, "/o/net_tidl_artifacts");
    assert_eq!(
        cmd,
        "/sdk/tidl_model_import --modelType=onnx --modelFile=/m/net.onnx --artifactsDir=/o/net_tidl_artifacts --numFrames=50 --quantization=1 --activationBitWidth=8 --weightBitWidth=8 --calibFramesDir=/calib"
    );
    let e = ModelOptimizer::ti_import_command("a.onnx", "b", Precision::FP16, &OptimizerConfig::default(), None, None).unwrap_err();
    assert!(e.to_string().contains("Neither TIDL_TOOLS_PATH nor EDGEAI_SDK_PATH is set."));
}

#[test]
fn nonexistent_onnx_fails() {
    let r = ModelOptimizer::optimization_step("/does/not/exist.onnx", false, Vendor::Nvidia, "/does/not/exist_nvidia_optimized_int8.engine", false);
    assert!(r.is_err());
    assert_eq!(
        r.err().unwrap().to_string(),
        "Model optimization failed: ONNX model not found: /does/not/exist.onnx"
    );
}

#[test]
fn optimization_steps() {
    match ModelOptimizer::optimization_step("m.onnx", true, Vendor::Nvidia, "m_x.engine", true).unwrap() {
        OptimizationStep::UseCached { engine_path, summary } => {
            assert_eq!(engine_path, "m_x.engine");
            assert_eq!(summary, "Using cached optimized engine: m_x.engine");
        }
        _ => panic!("expected the cached engine"),
    }
    assert!(matches!(
        ModelOptimizer::optimization_step("m.onnx", true, Vendor::Qualcomm, "x", false).unwrap(),
        OptimizationStep::Convert { vendor: Vendor::Qualcomm }
    ));
    match ModelOptimizer::optimization_step("m.onnx", true, Vendor::Cpu, "x", false).unwrap() {
        OptimizationStep::FallBack { engine_path, summary } => {
            assert_eq!(engine_path, "m.onnx");
            assert_eq!(
                summary,
                "Optimization failed (Model optimization failed: Optimization not supported for vendor: CPU), using original ONNX"
            );
        }
        _ => panic!("expected a fallback"),
    }
}

#[test]
fn fallback_and_dry_run_summaries() {
    let e = MiddlewareError::DependencyMissing("trtexec".into());
    match ModelOptimizer::fallback_step("a.onnx", &e) {
        OptimizationStep::FallBack { engine_path, summary } => {
            assert_eq!(engine_path, "a.onnx");
            assert_eq!(summary, "Optimization failed (Dependency missing: trtexec), using original ONNX");
        }
        _ => panic!("expected a fallback"),
    }
    let s = ModelOptimizer::dry_run_summary("trtexec --onnx=a");
    assert_eq!(s, "[DRY RUN] Would execute: trtexec --onnx=a");
    assert!(ModelOptimizer::is_dry_run_summary(&s));
    assert!(!ModelOptimizer::is_dry_run_summary("NVIDIA TensorRT engine built"));
}

#[test]
fn trtexec_selection_order() {
    let r = ModelOptimizer::select_trtexec(&vec![false, true, true], Some("/x/trtexec\n"));
    assert_eq!(r.unwrap(), "/usr/local/bin/trtexec");
    let r = ModelOptimizer::select_trtexec(&vec![false, false, false], Some("  /opt/trt/trtexec \n"));
    assert_eq!(r.unwrap(), "/opt/trt/trtexec");
    let r = ModelOptimizer::select_trtexec(&vec![false, false, false], Some("  \n"));
    assert!(r.unwrap_err().to_string().starts_with("Dependency missing: trtexec not found."));
    assert!(ModelOptimizer::select_trtexec(&vec![false, false, false], None).is_err());
}

#[test]
fn calibration_images_filtered_limited_sorted() {
    let paths: Vec<String> = ["/c/b.JPG", "/c/notes.txt", "/c/a.png", "/c/d.jpeg", "/c/c.bmp", "/c/noext"]
        .iter()
        .map(|s| s.to_string())
        .collect();
    assert_eq!(
        ModelOptimizer::calibration_images(&paths, 0),
        vec!["/c/a.png", "/c/b.JPG", "/c/c.bmp", "/c/d.jpeg"]
    );
    assert_eq!(ModelOptimizer::calibration_images(&paths, 2), vec!["/c/a.png", "/c/b.JPG"]);
    assert_eq!(ModelOptimizer::calibration_cache_path("/m/net.onnx"), "/m/net_calibration.cache");
    assert!(ModelOptimizer::is_calibration_image("x.JpEg"));
    assert!(!ModelOptimizer::is_calibration_image("x.gif"));
}
