//! Ahead-of-time deployment builds: which vendor a hardware name targets,
//! the converter command lines per vendor, and the cargo build of the
//! inference server. Running the tools is the caller's part.

use vstd::prelude::*;

use crate::hardware::profile::Vendor;
use crate::utils::errors::Precision;
use crate::utils::text::{
    ascii_upper, concat2, concat3, is_ascii_text, push_lit, push_text, str_eq, string_views,
    to_uppercase, unicode_uppercase,
};

verus! {

/// The vendor an (already uppercased) hardware name targets.
pub open spec fn vendor_for_name(s: Seq<char>) -> Option<Vendor> {
    if s == "ORIN"@ || s == "NVIDIA"@ || s == "THOR"@ {
        Some(Vendor::Nvidia)
    } else if s == "QUALCOMM"@ || s == "SNAPDRAGON"@ || s == "QNN"@ || s == "SNPE"@ {
        Some(Vendor::Qualcomm)
    } else if s == "TDA4"@ || s == "TI"@ || s == "JACINTO"@ || s == "TIDL"@ {
        Some(Vendor::TexasInstruments)
    } else if s == "CPU"@ {
        Some(Vendor::Cpu)
    } else {
        None
    }
}

/// The vendor a hardware name targets, compared case-insensitively
/// (through Unicode uppercasing); `None` for an unsupported target.
pub fn target_vendor(hardware: &str) -> (r: Option<Vendor>)
    ensures
        r == vendor_for_name(unicode_uppercase(hardware@)),
        is_ascii_text(hardware@) ==> unicode_uppercase(hardware@) == ascii_upper(hardware@),
{
    let u = to_uppercase(hardware);
    let s = u.as_str();
    if str_eq(s, "ORIN") || str_eq(s, "NVIDIA") || str_eq(s, "THOR") {
        Some(Vendor::Nvidia)
    } else if str_eq(s, "QUALCOMM") || str_eq(s, "SNAPDRAGON") || str_eq(s, "QNN") || str_eq(
        s,
        "SNPE",
    ) {
        Some(Vendor::Qualcomm)
    } else if str_eq(s, "TDA4") || str_eq(s, "TI") || str_eq(s, "JACINTO") || str_eq(s, "TIDL") {
        Some(Vendor::TexasInstruments)
    } else if str_eq(s, "CPU") {
        Some(Vendor::Cpu)
    } else {
        None
    }
}

/// The `--backend` name the deployed server is started with.
pub open spec fn deploy_backend_name(v: Vendor) -> Seq<char> {
    match v {
        Vendor::Nvidia => "nvidia"@,
        Vendor::Qualcomm => "qualcomm"@,
        Vendor::TexasInstruments => "ti"@,
        _ => "cpu"@,
    }
}

/// The `--backend` name the deployed server is started with.
pub fn deploy_backend(v: Vendor) -> (s: &'static str)
    ensures
        s@ == deploy_backend_name(v),
{
    match v {
        Vendor::Nvidia => "nvidia",
        Vendor::Qualcomm => "qualcomm",
        Vendor::TexasInstruments => "ti",
        _ => "cpu",
    }
}

/// The `trtexec` precision flag of a deployment build (none for FP32).
pub open spec fn aot_precision_flag(p: Precision) -> Seq<Seq<char>> {
    match p {
        Precision::FP16 => seq!["--fp16"@],
        Precision::INT8 => seq!["--int8"@],
        Precision::FP8 => seq!["--fp8"@],
        Precision::FP32 => Seq::empty(),
    }
}

/// The `trtexec` arguments of a deployment build.
pub open spec fn aot_trtexec(model: Seq<char>, output: Seq<char>, p: Precision, verbose: bool) -> Seq<
    Seq<char>,
> {
    seq!["--onnx="@ + model, "--saveEngine="@ + output] + aot_precision_flag(p) + if verbose {
        seq!["--verbose"@]
    } else {
        Seq::empty()
    }
}

/// A deployment build hands `trtexec` exactly the flag of its precision:
/// `--fp16` for FP16, `--int8` for INT8, `--fp8` for FP8, and none of the
/// three for FP32, whatever the model and output paths and the verbosity.
pub proof fn lemma_aot_precision_flag_exact(
    model: Seq<char>,
    output: Seq<char>,
    p: Precision,
    verbose: bool,
)
    ensures
        aot_trtexec(model, output, p, verbose).contains("--fp16"@) <==> p == Precision::FP16,
        aot_trtexec(model, output, p, verbose).contains("--int8"@) <==> p == Precision::INT8,
        aot_trtexec(model, output, p, verbose).contains("--fp8"@) <==> p == Precision::FP8,
{
    reveal_strlit("--onnx=");
    reveal_strlit("--saveEngine=");
    reveal_strlit("--verbose");
    reveal_strlit("--fp16");
    reveal_strlit("--int8");
    reveal_strlit("--fp8");
    let args = aot_trtexec(model, output, p, verbose);
    let flags = aot_precision_flag(p);
    assert("--fp16"@ != "--int8"@) by {
        assert("--fp16"@[2] != "--int8"@[2]);
    }
    assert forall|i: int| 0 <= i < args.len() implies args[i].len() >= 7 || flags.contains(
        args[i],
    ) by {
        if i == 0 {
            assert(args[i] == "--onnx="@ + model);
        } else if i == 1 {
            assert(args[i] == "--saveEngine="@ + output);
        } else if i < 2 + flags.len() {
            assert(args[i] == flags[i - 2]);
        } else {
            assert(args[i] == "--verbose"@);
        }
    }
    if p != Precision::FP32 {
        assert(args[2] == flags[0]);
    }
}

/// The `trtexec` arguments of a deployment build.
pub fn aot_trtexec_args(model: &str, output: &str, precision: Precision, verbose: bool) -> (r: Vec<
    String,
>)
    ensures
        string_views(r@) == aot_trtexec(model@, output@, precision, verbose),
        string_views(r@).contains("--fp16"@) <==> precision == Precision::FP16,
        string_views(r@).contains("--int8"@) <==> precision == Precision::INT8,
        string_views(r@).contains("--fp8"@) <==> precision == Precision::FP8,
{
    proof {
        lemma_aot_precision_flag_exact(model@, output@, precision, verbose);
    }
    let mut v: Vec<String> = Vec::new();
    push_text(&mut v, concat2("--onnx=", model));
    push_text(&mut v, concat2("--saveEngine=", output));
    let ghost base = string_views(v@);
    match precision {
        Precision::FP16 => push_lit(&mut v, "--fp16"),
        Precision::INT8 => push_lit(&mut v, "--int8"),
        Precision::FP8 => push_lit(&mut v, "--fp8"),
        Precision::FP32 => {},
    }
    assert(string_views(v@) =~= base + aot_precision_flag(precision));
    let ghost mid = string_views(v@);
    if verbose {
        push_lit(&mut v, "--verbose");
    }
    assert(string_views(v@) =~= aot_trtexec(model@, output@, precision, verbose)) by {
        if verbose {
            assert(string_views(v@) =~= mid + seq!["--verbose"@]);
        } else {
            assert(string_views(v@) =~= mid);
        }
    }
    v
}

/// The converter directory for the build's architecture.
pub open spec fn aot_arch(aarch64: bool) -> Seq<char> {
    if aarch64 {
        "aarch64-linux-clang"@
    } else {
        "x86_64-linux-clang"@
    }
}

fn arch_str(aarch64: bool) -> (s: &'static str)
    ensures
        s@ == aot_arch(aarch64),
{
    if aarch64 {
        "aarch64-linux-clang"
    } else {
        "x86_64-linux-clang"
    }
}

/// `<root>/bin/<arch>/qnn-onnx-converter`.
pub fn qnn_converter_path(qnn_root: &str, aarch64: bool) -> (s: String)
    ensures
        s@ == qnn_root@ + "/bin/"@ + aot_arch(aarch64) + "/qnn-onnx-converter"@,
{
    let mut s = concat3(qnn_root, "/bin/", arch_str(aarch64));
    s.append("/qnn-onnx-converter");
    s
}

/// The QNN converter arguments; FP16 asks for 16-bit floats.
pub fn qnn_convert_args(model: &str, output: &str, precision: Precision) -> (r: Vec<String>)
    ensures
        string_views(r@) == seq!["--input_network"@, model@, "--output_path"@, output@] + if precision
            == Precision::FP16 {
            seq!["--float_bitwidth"@, "16"@]
        } else {
            Seq::<Seq<char>>::empty()
        },
{
    let mut v: Vec<String> = Vec::new();
    push_lit(&mut v, "--input_network");
    push_lit(&mut v, model);
    push_lit(&mut v, "--output_path");
    push_lit(&mut v, output);
    let ghost base = string_views(v@);
    if precision == Precision::FP16 {
        push_lit(&mut v, "--float_bitwidth");
        push_lit(&mut v, "16");
        assert(string_views(v@) =~= base + seq!["--float_bitwidth"@, "16"@]);
    } else {
        assert(string_views(v@) =~= base + Seq::<Seq<char>>::empty());
    }
    v
}

/// `<root>/bin/<arch>/snpe-onnx-to-dlc`.
pub fn snpe_converter_path(snpe_root: &str, aarch64: bool) -> (s: String)
    ensures
        s@ == snpe_root@ + "/bin/"@ + aot_arch(aarch64) + "/snpe-onnx-to-dlc"@,
{
    let mut s = concat3(snpe_root, "/bin/", arch_str(aarch64));
    s.append("/snpe-onnx-to-dlc");
    s
}

/// The SNPE converter arguments.
pub fn snpe_convert_args(model: &str, output: &str) -> (r: Vec<String>)
    ensures
        string_views(r@) == seq!["-d"@, model@, "-o"@, output@],
{
    let mut v: Vec<String> = Vec::new();
    push_lit(&mut v, "-d");
    push_lit(&mut v, model);
    push_lit(&mut v, "-o");
    push_lit(&mut v, output);
    assert(string_views(v@) =~= seq!["-d"@, model@, "-o"@, output@]);
    v
}

/// `<root>/tidl_model_import.out`, the TIDL compiler.
pub fn tidl_compiler_path(tidl_root: &str) -> (s: String)
    ensures
        s@ == tidl_root@ + "/tidl_model_import.out"@,
{
    concat2(tidl_root, "/tidl_model_import.out")
}

/// The TIDL compiler arguments: the model, then the output.
pub fn tidl_compile_args(model: &str, output: &str) -> (r: Vec<String>)
    ensures
        string_views(r@) == seq![model@, output@],
{
    let mut v: Vec<String> = Vec::new();
    push_lit(&mut v, model);
    push_lit(&mut v, output);
    assert(string_views(v@) =~= seq![model@, output@]);
    v
}

/// The cargo feature enabling a vendor's backend (none for the others).
pub open spec fn server_feature(v: Vendor) -> Option<Seq<char>> {
    match v {
        Vendor::Nvidia => Some("nvidia"@),
        Vendor::Qualcomm => Some("qualcomm"@),
        Vendor::TexasInstruments => Some("ti"@),
        _ => None,
    }
}

/// The cargo arguments that build the server binary for a vendor,
/// optionally cross-compiling for `target`.
pub open spec fn server_build(v: Vendor, target: Option<Seq<char>>) -> Seq<Seq<char>> {
    seq!["build"@, "--release"@, "--bin"@, "magna_server"@] + match server_feature(v) {
        Some(f) => seq!["--features"@, f],
        None => Seq::empty(),
    } + match target {
        Some(t) => seq!["--target"@, t],
        None => Seq::empty(),
    }
}

/// The view of an optional text.
pub open spec fn opt_text_view(o: Option<&str>) -> Option<Seq<char>> {
    match o {
        Some(s) => Some(s@),
        None => None,
    }
}

/// The cargo arguments that build the server binary.
pub fn server_build_args(vendor: Vendor, target: Option<&str>) -> (r: Vec<String>)
    ensures
        string_views(r@) == server_build(vendor, opt_text_view(target)),
{
    let mut v: Vec<String> = Vec::new();
    push_lit(&mut v, "build");
    push_lit(&mut v, "--release");
    push_lit(&mut v, "--bin");
    push_lit(&mut v, "magna_server");
    let ghost s0 = string_views(v@);
    match vendor {
        Vendor::Nvidia => {
            push_lit(&mut v, "--features");
            push_lit(&mut v, "nvidia");
        },
        Vendor::Qualcomm => {
            push_lit(&mut v, "--features");
            push_lit(&mut v, "qualcomm");
        },
        Vendor::TexasInstruments => {
            push_lit(&mut v, "--features");
            push_lit(&mut v, "ti");
        },
        _ => {},
    }
    let ghost feat = match server_feature(vendor) {
        Some(f) => seq!["--features"@, f],
        None => Seq::<Seq<char>>::empty(),
    };
    assert(string_views(v@) =~= s0 + feat);
    let ghost s1 = string_views(v@);
    match target {
        Some(t) => {
            push_lit(&mut v, "--target");
            push_lit(&mut v, t);
            assert(string_views(v@) =~= s1 + seq!["--target"@, t@]);
        },
        None => {
            assert(string_views(v@) =~= s1 + Seq::<Seq<char>>::empty());
        },
    }
    v
}

/// Where cargo leaves the server binary.
pub fn server_binary_source(target: Option<&str>) -> (s: String)
    ensures
        s@ == match target {
            Some(t) => "target/"@ + t@ + "/release/magna_server"@,
            None => "target/release/magna_server"@,
        },
{
    match target {
        Some(t) => concat3("target/", t, "/release/magna_server"),
        None => String::from_str("target/release/magna_server"),
    }
}

} // verus!
