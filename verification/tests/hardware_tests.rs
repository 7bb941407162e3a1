use magna_middleware::hardware::dependency::{check_dependencies, dependency_probes, DependencyProbe, ProbeOutcome};
use magna_middleware::hardware::detector::{
    cpu_fallback_profile, detect_cpu_name, library_file_matches, probe_library_public, simulated_profile,
};
use magna_middleware::hardware::profile::{Accelerator, HardwareProfile, Vendor};
use magna_middleware::utils::errors::Precision;

#[test]
fn generic_deps_always_work() {
    let outcomes = vec![
        ProbeOutcome::CommandSucceeded("rustc 1.80.0 (abc 2024-07-21)\n".to_string()),
        ProbeOutcome::CommandNotFound,
    ];
    let result = check_dependencies(Vendor::Cpu, &outcomes);
    assert!(result.is_ok());
}

#[test]
fn cpu_profile_is_valid() {
    let profile = cpu_fallback_profile(detect_cpu_name(None, Some("x86_64\n")));
    assert_eq!(profile.vendor, Vendor::Cpu);
    assert!(!profile.device_name.is_empty());
    assert!(profile.has_accelerator());
    assert!(profile.supports_fp32);
}

#[test]
fn simulated_profile_has_accelerator() {
    let profile = simulated_profile();
    assert!(profile.has_accelerator());
    assert_eq!(profile.accelerators[0].name, "Simulated Accelerator");
    assert!(profile.supports_fp16);
}

#[test]
fn none_profile_has_no_accelerators() {
    let p = HardwareProfile::none();
    assert!(!p.has_accelerator());
    assert_eq!(p.vendor, Vendor::Unknown);
}

#[test]
fn precision_support_check() {
    let p = HardwareProfile {
        vendor: Vendor::Nvidia,
        device_name: "Orin GPU".into(),
        supports_fp32: true,
        supports_fp16: true,
        supports_int8: true,
        supports_fp8: false,
        accelerators: vec![Accelerator {
            name: "Orin GPU".into(),
            device_index: 0,
            memory_bytes: 8 * 1024 * 1024 * 1024,
        }],
    };
    assert!(p.supports_precision(Precision::FP32));
    assert!(p.supports_precision(Precision::FP16));
    assert!(p.supports_precision(Precision::INT8));
    assert!(!p.supports_precision(Precision::FP8));
    assert!(p.has_accelerator());
}

#[test]
fn profile_display_format() {
    let p = HardwareProfile::none();
    let s = p.to_string();
    assert!(s.contains("Unknown"));
}

#[test]
fn cpu_vendor() {
    let p = HardwareProfile {
        vendor: Vendor::Cpu,
        device_name: "x86_64".into(),
        supports_fp32: true,
        supports_fp16: false,
        supports_int8: false,
        supports_fp8: false,
        accelerators: vec![Accelerator { name: "x86_64".into(), device_index: 0, memory_bytes: 0 }],
    };
    assert_eq!(p.vendor, Vendor::Cpu);
    assert_eq!(p.best_precision(), Precision::FP32);
}

#[test]
fn profile_text_is_exact() {
    let p = HardwareProfile::none();
    assert_eq!(
        p.to_string(),
        "HardwareProfile { vendor: Unknown, device: None, accelerators: 0, fp32: false, fp16: false, int8: false, fp8: false }"
    );
}

#[test]
fn cpu_name_prefers_cpuinfo_model_line() {
    let cpuinfo = "processor\t: 0\nvendor_id\t: GenuineIntel\nmodel name\t: Intel(R) Xeon(R) CPU @ 2.20GHz \nflags\t: fpu\n";
    assert_eq!(
        detect_cpu_name(Some(cpuinfo), Some("x86_64\n")),
        Some("Intel(R) Xeon(R) CPU @ 2.20GHz".to_string())
    );
    assert_eq!(detect_cpu_name(Some("processor : 0\n"), Some(" aarch64 \n")), Some("aarch64".to_string()));
    assert_eq!(detect_cpu_name(None, None), None);
    assert_eq!(cpu_fallback_profile(None).device_name, "Generic CPU");
}

#[test]
fn library_probe_matches_shared_objects() {
    assert!(library_file_matches("libnvinfer.so", "nvinfer"));
    assert!(library_file_matches("libnvinfer.so.8.6.1", "nvinfer"));
    assert!(!library_file_matches("libnvinfer.a", "nvinfer"));
    assert!(!library_file_matches("nvinfer.so", "nvinfer"));
    let listings = vec![vec!["libc.so.6".to_string()], vec!["libcudart.so.12".to_string()]];
    assert!(probe_library_public("cudart", &listings, None));
    assert!(!probe_library_public("nvinfer", &listings, None));
    assert!(probe_library_public("nvinfer", &listings, Some("\tlibnvinfer.so.8 (libc6,x86-64)")));
}

#[test]
fn missing_required_dependencies_are_named() {
    let probes = dependency_probes(Vendor::TexasInstruments);
    assert_eq!(probes.len(), 6);
    let outcomes = vec![
        ProbeOutcome::CommandNotFound,
        ProbeOutcome::CommandFailed,
        ProbeOutcome::EnvVarRead(None),
        ProbeOutcome::EnvVarRead(Some("/opt/ti".to_string())),
        ProbeOutcome::LibraryProbed(false),
        ProbeOutcome::LibraryProbed(true),
    ];
    let e = check_dependencies(Vendor::TexasInstruments, &outcomes).unwrap_err();
    assert_eq!(
        e.to_string(),
        "Dependency missing: Missing required dependencies: Rust compiler, TIDL Runtime"
    );
}

#[test]
fn qualcomm_needs_one_sdk() {
    let mut outcomes = vec![ProbeOutcome::CommandSucceeded("rustc 1.80".into()), ProbeOutcome::CommandNotFound];
    outcomes.push(ProbeOutcome::EnvVarRead(None));
    outcomes.push(ProbeOutcome::EnvVarRead(Some("/opt/qnn".into())));
    for _ in 0..4 {
        outcomes.push(ProbeOutcome::LibraryProbed(false));
    }
    let statuses = check_dependencies(Vendor::Qualcomm, &outcomes).unwrap();
    assert_eq!(statuses.len(), 9);
    assert_eq!(statuses[8].name, "SNPE or QNN (at least one)");
    assert!(statuses[8].found);
    assert_eq!(statuses[0].version, Some("rustc 1.80".to_string()));
    assert_eq!(statuses[3].detail, "$QNN_SDK_ROOT = /opt/qnn");
    assert!(matches!(probes_first(Vendor::Qualcomm), DependencyProbe::Command { .. }));
}

fn probes_first(v: Vendor) -> DependencyProbe {
    dependency_probes(v).into_iter().next().unwrap()
}
