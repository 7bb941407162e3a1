//! Hardware-aware ahead-of-time optimization of ONNX models: where the
//! optimized engine goes, and the converter command lines for TensorRT
//! (`trtexec`), Qualcomm SNPE/QNN and TI TIDL.
//!
//! Running the converters, probing the file system and reading the
//! environment happen outside this module; the decisions taken on their
//! outcomes are here.

use vstd::prelude::*;

use crate::hardware::profile::{vendor_name, HardwareProfile, Vendor};
use crate::utils::errors::{short_name, ErrorView, MiddlewareError, Precision};
use crate::utils::paths::{
    extension, file_stem, join_path, parent, path_extension, path_join, path_parent, path_stem,
};
use crate::utils::text::{
    concat2, concat3, decimal, has_prefix, has_suffix, join, join_strings, push_decimal, push_lit,
    push_text, replace_all, replaced, sort_texts, str_eq, str_starts_with, string_views, text_le,
    to_lowercase, trim, trim_str, unicode_lowercase,
};

verus! {

/// Configuration of the model optimizer.
#[derive(Debug)]
pub struct OptimizerConfig {
    /// Directory of calibration images (JPEG/PNG).
    pub calibration_dir: Option<String>,
    /// Ground-truth labels file (one label index per line).
    pub ground_truth_path: Option<String>,
    /// Number of calibration images to use (0 = all).
    pub calibration_count: usize,
    /// Inference iterations for benchmarking.
    pub benchmark_iterations: usize,
    /// Warmup iterations before benchmarking.
    pub warmup_iterations: usize,
    /// Offload to a DLA core on NVIDIA Orin.
    pub enable_dla: bool,
    /// DLA core index (0 or 1 on Orin).
    pub dla_core: u32,
    /// TensorRT builder workspace in MB.
    pub workspace_mb: u64,
    /// Enable structured-sparsity optimizations.
    pub enable_sparsity: bool,
    /// Number of TensorRT streams.
    pub num_streams: u32,
    /// Output directory for optimized engines (none = next to the input).
    pub output_dir: Option<String>,
    /// Only describe the commands, do not run them.
    pub dry_run: bool,
}

impl Default for OptimizerConfig {
    fn default() -> (c: OptimizerConfig)
        ensures
            c.calibration_dir is None,
            c.ground_truth_path is None,
            c.calibration_count == 0,
            c.benchmark_iterations == 50,
            c.warmup_iterations == 5,
            !c.enable_dla,
            c.dla_core == 0,
            c.workspace_mb == 4096,
            !c.enable_sparsity,
            c.num_streams == 2,
            c.output_dir is None,
            !c.dry_run,
    {
        OptimizerConfig {
            calibration_dir: None,
            ground_truth_path: None,
            calibration_count: 0,
            benchmark_iterations: 50,
            warmup_iterations: 5,
            enable_dla: false,
            dla_core: 0,
            workspace_mb: 4096,
            enable_sparsity: false,
            num_streams: 2,
            output_dir: None,
            dry_run: false,
        }
    }
}

/// The hardware-aware model optimizer.
pub struct ModelOptimizer;

/// The vendor tag used in engine file names.
pub open spec fn vendor_tag(v: Vendor) -> Seq<char> {
    match v {
        Vendor::Nvidia => "nvidia"@,
        Vendor::Qualcomm => "qualcomm"@,
        Vendor::TexasInstruments => "ti"@,
        Vendor::Cpu => "cpu"@,
        Vendor::Unknown => "unknown"@,
    }
}

/// The engine file extension for a vendor.
pub open spec fn engine_extension(v: Vendor) -> Seq<char> {
    match v {
        Vendor::Qualcomm => "bin"@,
        Vendor::TexasInstruments => "tidl"@,
        _ => "engine"@,
    }
}

/// `<stem>_<vendor>_optimized_<precision>.<extension>`.
pub open spec fn engine_file_name(stem: Seq<char>, v: Vendor, p: Precision) -> Seq<char> {
    stem + "_"@ + vendor_tag(v) + "_optimized_"@ + short_name(p) + "."@ + engine_extension(v)
}

/// The file stem of a path, or the empty text when it has none.
pub open spec fn stem_or_empty(path: Seq<char>) -> Seq<char> {
    match path_stem(path) {
        Some(s) => s,
        None => Seq::empty(),
    }
}

/// The directory of a path, or `"."` when it has none.
pub open spec fn parent_or_dot(path: Seq<char>) -> Seq<char> {
    match path_parent(path) {
        Some(d) => d,
        None => "."@,
    }
}

/// Where optimized engines go: the configured directory, else the model's
/// own directory.
pub open spec fn engine_dir(onnx_path: Seq<char>, output_dir: Option<Seq<char>>) -> Seq<char> {
    match output_dir {
        Some(d) => d,
        None => parent_or_dot(onnx_path),
    }
}

/// The view of an optional owned text.
pub open spec fn opt_view(o: Option<String>) -> Option<Seq<char>> {
    match o {
        Some(s) => Some(s@),
        None => None,
    }
}

fn vendor_tag_str(v: Vendor) -> (s: &'static str)
    ensures
        s@ == vendor_tag(v),
{
    match v {
        Vendor::Nvidia => "nvidia",
        Vendor::Qualcomm => "qualcomm",
        Vendor::TexasInstruments => "ti",
        Vendor::Cpu => "cpu",
        Vendor::Unknown => "unknown",
    }
}

fn engine_extension_str(v: Vendor) -> (s: &'static str)
    ensures
        s@ == engine_extension(v),
{
    match v {
        Vendor::Nvidia => "engine",
        Vendor::Qualcomm => "bin",
        Vendor::TexasInstruments => "tidl",
        _ => "engine",
    }
}

/// The file stem of `path`, or the empty text.
fn stem_text(path: &str) -> (s: String)
    ensures
        s@ == stem_or_empty(path@),
        forall|i: int| 0 <= i < s@.len() ==> s@[i] != '/',
{
    match file_stem(path) {
        Some(s) => s,
        None => String::new(),
    }
}

/// The directory of `path`, or `"."`.
fn parent_text(path: &str) -> (s: String)
    ensures
        s@ == parent_or_dot(path@),
{
    match parent(path) {
        Some(d) => d,
        None => String::from_str("."),
    }
}

/// The character `k` places before the end of `s`.
pub open spec fn from_end(s: Seq<char>, k: int) -> char {
    s[s.len() - 1 - k]
}

proof fn lemma_suffix_from_end(s: Seq<char>, n: Seq<char>, k: int)
    requires
        has_suffix(s, n),
        0 <= k < n.len(),
    ensures
        from_end(s, k) == from_end(n, k),
{
    assert(s.skip(s.len() - n.len())[n.len() - 1 - k] == s[s.len() - 1 - k]);
}

proof fn lemma_name_tail(stem: Seq<char>, v: Vendor, p: Precision)
    ensures
        engine_file_name(stem, v, p).len() >= engine_extension(v).len() + 1 + short_name(p).len()
            + 11 + vendor_tag(v).len(),
        from_end(engine_file_name(stem, v, p), 0) == from_end(engine_extension(v), 0),
        from_end(engine_file_name(stem, v, p), (engine_extension(v).len() + 2) as int) == from_end(
            short_name(p),
            1,
        ),
        from_end(
            engine_file_name(stem, v, p),
            (engine_extension(v).len() + 1 + short_name(p).len() + 11) as int,
        ) == from_end(vendor_tag(v), 0),
{
    reveal_strlit("_");
    reveal_strlit("_optimized_");
    reveal_strlit(".");
    reveal_strlit("nvidia");
    reveal_strlit("qualcomm");
    reveal_strlit("ti");
    reveal_strlit("cpu");
    reveal_strlit("unknown");
    reveal_strlit("engine");
    reveal_strlit("bin");
    reveal_strlit("tidl");
    reveal_strlit("fp32");
    reveal_strlit("fp16");
    reveal_strlit("int8");
    reveal_strlit("fp8");
    let e = engine_extension(v);
    let q = short_name(p);
    let t = vendor_tag(v);
    let a = stem + "_"@ + t;
    let b = a + "_optimized_"@ + q;
    let n = b + "."@ + e;
    assert(n == engine_file_name(stem, v, p));
    assert(t.len() > 0 && q.len() > 1 && e.len() > 0);
    assert(n[n.len() - 1] == e[e.len() - 1]);
    assert(n[n.len() - 1 - (e.len() + 2)] == b[b.len() - 2]);
    assert(b[b.len() - 2] == q[q.len() - 2]);
    assert(n[n.len() - 1 - (e.len() + 1 + q.len() + 11)] == b[b.len() - 1 - (q.len() + 11)]);
    assert(b[b.len() - 1 - (q.len() + 11)] == a[a.len() - 1]);
    assert(a[a.len() - 1] == t[t.len() - 1]);
}

/// Paths that end in the engine file names of different (vendor,
/// precision) pairs are different paths, whatever the model stems: the
/// optimized-engine cache never confuses two targets.
pub proof fn lemma_engine_paths_distinct(
    path1: Seq<char>,
    path2: Seq<char>,
    stem1: Seq<char>,
    stem2: Seq<char>,
    v1: Vendor,
    p1: Precision,
    v2: Vendor,
    p2: Precision,
)
    requires
        has_suffix(path1, engine_file_name(stem1, v1, p1)),
        has_suffix(path2, engine_file_name(stem2, v2, p2)),
        v1 != v2 || p1 != p2,
    ensures
        path1 != path2,
{
    reveal_strlit("nvidia");
    reveal_strlit("qualcomm");
    reveal_strlit("ti");
    reveal_strlit("cpu");
    reveal_strlit("unknown");
    reveal_strlit("engine");
    reveal_strlit("bin");
    reveal_strlit("tidl");
    reveal_strlit("fp32");
    reveal_strlit("fp16");
    reveal_strlit("int8");
    reveal_strlit("fp8");
    let n1 = engine_file_name(stem1, v1, p1);
    let n2 = engine_file_name(stem2, v2, p2);
    lemma_name_tail(stem1, v1, p1);
    lemma_name_tail(stem2, v2, p2);
    let e1 = engine_extension(v1);
    let e2 = engine_extension(v2);
    lemma_suffix_from_end(path1, n1, 0);
    lemma_suffix_from_end(path2, n2, 0);
    if e1 != e2 {
        assert(from_end(e1, 0) != from_end(e2, 0));
    } else {
        let k = (e1.len() + 2) as int;
        lemma_suffix_from_end(path1, n1, k);
        lemma_suffix_from_end(path2, n2, k);
        if p1 != p2 {
            assert(from_end(short_name(p1), 1) != from_end(short_name(p2), 1));
        } else {
            let j = (e1.len() + 1 + short_name(p1).len() + 11) as int;
            lemma_suffix_from_end(path1, n1, j);
            lemma_suffix_from_end(path2, n2, j);
            assert(from_end(vendor_tag(v1), 0) != from_end(vendor_tag(v2), 0));
        }
    }
}

impl ModelOptimizer {
    /// The deterministic path of the optimized engine for a model, vendor
    /// and precision: `<dir>/<stem>_<vendor>_optimized_<precision>.<ext>`.
    pub fn engine_output_path(
        onnx_path: &str,
        profile: &HardwareProfile,
        precision: Precision,
        config: &OptimizerConfig,
    ) -> (r: String)
        ensures
            r@ == path_join(
                engine_dir(onnx_path@, opt_view(config.output_dir)),
                engine_file_name(stem_or_empty(onnx_path@), profile.vendor, precision),
            ),
            has_suffix(r@, engine_file_name(stem_or_empty(onnx_path@), profile.vendor, precision)),
    {
        let stem = stem_text(onnx_path);
        let mut filename = stem;
        filename.append("_");
        filename.append(vendor_tag_str(profile.vendor));
        filename.append("_optimized_");
        filename.append(precision.as_str());
        filename.append(".");
        filename.append(engine_extension_str(profile.vendor));
        let dir = match &config.output_dir {
            Some(d) => d.clone(),
            None => parent_text(onnx_path),
        };
        proof {
            reveal_strlit("_");
            assert(filename@ =~= engine_file_name(
                stem_or_empty(onnx_path@),
                profile.vendor,
                precision,
            ));
            assert(filename@[0] != '/');
        }
        join_path(dir.as_str(), filename.as_str())
    }
}

/// The `trtexec` precision flags; an INT8 build may name a calibration
/// cache.
pub open spec fn trtexec_precision_flags(p: Precision, calib: Option<Seq<char>>) -> Seq<Seq<char>> {
    match p {
        Precision::INT8 => seq!["--int8"@, "--fp16"@] + match calib {
            Some(c) => seq!["--calib="@ + c],
            None => Seq::empty(),
        } + seq!["--precisionConstraints=prefer"@],
        Precision::FP16 => seq!["--fp16"@],
        Precision::FP8 => seq!["--fp8"@, "--fp16"@],
        Precision::FP32 => Seq::empty(),
    }
}

/// The `trtexec` tuning flags that follow the precision flags.
pub open spec fn trtexec_tuning(c: OptimizerConfig) -> Seq<Seq<char>> {
    seq!["--tacticSources=+CUBLAS,+CUBLAS_LT,+CUDNN"@] + (if c.enable_dla {
        seq!["--useDLACore="@ + decimal(c.dla_core as nat), "--allowGPUFallback"@]
    } else {
        Seq::empty()
    }) + (if c.enable_sparsity {
        seq!["--sparsity=enable"@]
    } else {
        Seq::empty()
    }) + (if c.num_streams > 1 {
        seq!["--streams="@ + decimal(c.num_streams as nat)]
    } else {
        Seq::empty()
    }) + seq!["--avgRuns=100"@, "--duration=10"@, "--verbose"@]
}

/// The `trtexec` arguments of an Orin TensorRT build.
pub open spec fn trtexec_args(
    onnx: Seq<char>,
    out: Seq<char>,
    p: Precision,
    c: OptimizerConfig,
    calib: Option<Seq<char>>,
) -> Seq<Seq<char>> {
    seq![
        "--onnx="@ + onnx,
        "--saveEngine="@ + out,
        "--workspace="@ + decimal(c.workspace_mb as nat),
    ] + trtexec_precision_flags(p, calib) + trtexec_tuning(c)
}

/// Every `trtexec` argument of an Orin build is longer than six characters
/// except its precision flags.
proof fn lemma_trtexec_short_args(
    onnx: Seq<char>,
    out: Seq<char>,
    p: Precision,
    c: OptimizerConfig,
    calib: Option<Seq<char>>,
)
    ensures
        forall|i: int|
            0 <= i < trtexec_args(onnx, out, p, c, calib).len() ==> (#[trigger] trtexec_args(
                onnx,
                out,
                p,
                c,
                calib,
            )[i]).len() > 6 || trtexec_precision_flags(p, calib).contains(
                trtexec_args(onnx, out, p, c, calib)[i],
            ),
{
    reveal_strlit("--onnx=");
    reveal_strlit("--saveEngine=");
    reveal_strlit("--workspace=");
    reveal_strlit("--tacticSources=+CUBLAS,+CUBLAS_LT,+CUDNN");
    reveal_strlit("--useDLACore=");
    reveal_strlit("--allowGPUFallback");
    reveal_strlit("--sparsity=enable");
    reveal_strlit("--streams=");
    reveal_strlit("--avgRuns=100");
    reveal_strlit("--duration=10");
    reveal_strlit("--verbose");
    let args = trtexec_args(onnx, out, p, c, calib);
    let head = seq!["--onnx="@ + onnx, "--saveEngine="@ + out, "--workspace="@ + decimal(
        c.workspace_mb as nat,
    )];
    let flags = trtexec_precision_flags(p, calib);
    let tuning = trtexec_tuning(c);
    assert forall|j: int| 0 <= j < tuning.len() implies (#[trigger] tuning[j]).len() > 6 by {
        let dla = if c.enable_dla {
            seq!["--useDLACore="@ + decimal(c.dla_core as nat), "--allowGPUFallback"@]
        } else {
            Seq::<Seq<char>>::empty()
        };
        let sp = if c.enable_sparsity {
            seq!["--sparsity=enable"@]
        } else {
            Seq::<Seq<char>>::empty()
        };
        let st = if c.num_streams > 1 {
            seq!["--streams="@ + decimal(c.num_streams as nat)]
        } else {
            Seq::<Seq<char>>::empty()
        };
        let tail = seq!["--avgRuns=100"@, "--duration=10"@, "--verbose"@];
        let a = seq!["--tacticSources=+CUBLAS,+CUBLAS_LT,+CUDNN"@];
        assert(tuning =~= a + dla + sp + st + tail);
        if j < 1 {
        } else if j < 1 + dla.len() {
            assert(tuning[j] == dla[j - 1]);
        } else if j < 1 + dla.len() + sp.len() {
            assert(tuning[j] == sp[j - 1 - dla.len()]);
        } else if j < 1 + dla.len() + sp.len() + st.len() {
            assert(tuning[j] == st[j - 1 - dla.len() - sp.len()]);
        } else {
            assert(tuning[j] == tail[j - 1 - dla.len() - sp.len() - st.len()]);
        }
    }
    assert forall|i: int| 0 <= i < args.len() implies (#[trigger] args[i]).len() > 6
        || flags.contains(args[i]) by {
        if i < 3 {
            assert(args[i] == head[i]);
        } else if i < 3 + flags.len() {
            assert(args[i] == flags[i - 3]);
        } else {
            assert(args[i] == tuning[i - 3 - flags.len()]);
        }
    }
}

/// An Orin build hands `trtexec` the flag that enables its precision:
/// `--fp16` for FP16, `--int8` for INT8 and `--fp8` for FP8 (INT8 and FP8
/// builds also allow FP16 fallback layers, so they carry `--fp16` too). An
/// FP32 build carries none of the three, and only an INT8 build carries
/// `--int8`, only an FP8 build `--fp8`.
pub proof fn lemma_trtexec_precision_flag(
    onnx: Seq<char>,
    out: Seq<char>,
    p: Precision,
    c: OptimizerConfig,
    calib: Option<Seq<char>>,
)
    ensures
        trtexec_args(onnx, out, p, c, calib).contains("--fp16"@) <==> p != Precision::FP32,
        trtexec_args(onnx, out, p, c, calib).contains("--int8"@) <==> p == Precision::INT8,
        trtexec_args(onnx, out, p, c, calib).contains("--fp8"@) <==> p == Precision::FP8,
{
    reveal_strlit("--fp16");
    reveal_strlit("--int8");
    reveal_strlit("--fp8");
    reveal_strlit("--calib=");
    reveal_strlit("--precisionConstraints=prefer");
    lemma_trtexec_short_args(onnx, out, p, c, calib);
    let args = trtexec_args(onnx, out, p, c, calib);
    let flags = trtexec_precision_flags(p, calib);
    assert("--fp16"@ != "--int8"@) by {
        assert("--fp16"@[2] != "--int8"@[2]);
    }
    if p != Precision::FP32 {
        assert(args[3] == flags[0]);
    }
    if p == Precision::INT8 || p == Precision::FP8 {
        assert(args[4] == flags[1]);
    }
    assert forall|k: int| 0 <= k < flags.len() && (#[trigger] flags[k]).len() <= 6 implies (k
        == 0 || (k == 1 && (p == Precision::INT8 || p == Precision::FP8))) by {
        if p == Precision::INT8 {
            let cal = match calib {
                Some(x) => seq!["--calib="@ + x],
                None => Seq::<Seq<char>>::empty(),
            };
            assert(flags =~= seq!["--int8"@, "--fp16"@] + cal + seq![
                "--precisionConstraints=prefer"@,
            ]);
            if k >= 2 && k < 2 + cal.len() {
                assert(flags[k] == cal[k - 2]);
            } else if k >= 2 {
                assert(flags[k] == "--precisionConstraints=prefer"@);
            }
        }
    }
    assert forall|x: Seq<char>| flags.contains(x) && x.len() <= 6 implies x == flags[0] || ((p
        == Precision::INT8 || p == Precision::FP8) && x == flags[1]) by {
        let k = choose|k: int| 0 <= k < flags.len() && flags[k] == x;
        assert(flags[k] == x);
    }
}

/// The arguments of the Qualcomm converter; `input_list` adds the
/// calibration list for INT8 quantization.
pub open spec fn qualcomm_args(onnx: Seq<char>, out: Seq<char>, p: Precision, input_list: bool) -> Seq<
    Seq<char>,
> {
    seq!["--input_network="@ + onnx, "--output_path="@ + out] + if p == Precision::INT8 {
        (if input_list {
            seq!["--input_list=calibration_list.txt"@]
        } else {
            Seq::empty()
        }) + seq!["--act_bitwidth=8"@, "--weight_bitwidth=8"@, "--bias_bitwidth=32"@]
    } else {
        Seq::empty()
    }
}

/// The arguments of the TIDL model import.
pub open spec fn ti_args(
    onnx: Seq<char>,
    artifacts: Seq<char>,
    p: Precision,
    calib_dir: Option<Seq<char>>,
) -> Seq<Seq<char>> {
    seq![
        "--modelType=onnx"@,
        "--modelFile="@ + onnx,
        "--artifactsDir="@ + artifacts,
        "--numFrames=50"@,
    ] + (if p == Precision::INT8 {
        seq!["--quantization=1"@, "--activationBitWidth=8"@, "--weightBitWidth=8"@]
    } else {
        seq!["--quantization=0"@]
    }) + match calib_dir {
        Some(d) => seq!["--calibFramesDir="@ + d],
        None => Seq::empty(),
    }
}

/// `prefix` followed by the decimal rendering of `n`.
fn decimal_arg(prefix: &str, n: u64) -> (s: String)
    ensures
        s@ == prefix@ + decimal(n as nat),
{
    let mut s = String::from_str(prefix);
    push_decimal(&mut s, n);
    s
}

/// The view of an optional text.
pub open spec fn opt_str_view(o: Option<&str>) -> Option<Seq<char>> {
    match o {
        Some(s) => Some(s@),
        None => None,
    }
}

impl ModelOptimizer {
    fn precision_flags(precision: Precision, calib_cache: Option<&str>) -> (r: Vec<String>)
        ensures
            string_views(r@) == trtexec_precision_flags(precision, opt_str_view(calib_cache)),
    {
        let mut args: Vec<String> = Vec::new();
        match precision {
            Precision::INT8 => {
                push_lit(&mut args, "--int8");
                push_lit(&mut args, "--fp16");
                match calib_cache {
                    Some(c) => push_text(&mut args, concat2("--calib=", c)),
                    None => {},
                }
                push_lit(&mut args, "--precisionConstraints=prefer");
            },
            Precision::FP16 => {
                push_lit(&mut args, "--fp16");
            },
            Precision::FP8 => {
                push_lit(&mut args, "--fp8");
                push_lit(&mut args, "--fp16");
            },
            Precision::FP32 => {},
        }
        assert(string_views(args@) =~= trtexec_precision_flags(
            precision,
            opt_str_view(calib_cache),
        ));
        args
    }

    fn tuning_flags(config: &OptimizerConfig) -> (r: Vec<String>)
        ensures
            string_views(r@) == trtexec_tuning(*config),
    {
        let mut args: Vec<String> = Vec::new();
        push_lit(&mut args, "--tacticSources=+CUBLAS,+CUBLAS_LT,+CUDNN");
        let ghost s0 = string_views(args@);
        if config.enable_dla {
            push_text(&mut args, decimal_arg("--useDLACore=", config.dla_core as u64));
            push_lit(&mut args, "--allowGPUFallback");
        }
        let ghost s1 = string_views(args@);
        if config.enable_sparsity {
            push_lit(&mut args, "--sparsity=enable");
        }
        let ghost s2 = string_views(args@);
        if config.num_streams > 1 {
            push_text(&mut args, decimal_arg("--streams=", config.num_streams as u64));
        }
        let ghost s3 = string_views(args@);
        push_lit(&mut args, "--avgRuns=100");
        push_lit(&mut args, "--duration=10");
        push_lit(&mut args, "--verbose");
        proof {
            let dla = if config.enable_dla {
                seq!["--useDLACore="@ + decimal(config.dla_core as nat), "--allowGPUFallback"@]
            } else {
                Seq::<Seq<char>>::empty()
            };
            let sp = if config.enable_sparsity {
                seq!["--sparsity=enable"@]
            } else {
                Seq::<Seq<char>>::empty()
            };
            let st = if config.num_streams > 1 {
                seq!["--streams="@ + decimal(config.num_streams as nat)]
            } else {
                Seq::<Seq<char>>::empty()
            };
            assert(s1 =~= s0 + dla);
            assert(s2 =~= s1 + sp);
            assert(s3 =~= s2 + st);
            assert(string_views(args@) =~= s3 + seq![
                "--avgRuns=100"@,
                "--duration=10"@,
                "--verbose"@,
            ]);
        }
        args
    }

    /// The `trtexec` arguments of an Orin TensorRT build; `calib_cache`
    /// names an existing INT8 calibration cache (ignored for other
    /// precisions).
    pub fn trtexec_args(
        onnx_path: &str,
        output_path: &str,
        precision: Precision,
        config: &OptimizerConfig,
        calib_cache: Option<&str>,
    ) -> (r: Vec<String>)
        ensures
            string_views(r@) == trtexec_args(
                onnx_path@,
                output_path@,
                precision,
                *config,
                opt_str_view(calib_cache),
            ),
            string_views(r@).contains("--fp16"@) <==> precision != Precision::FP32,
            string_views(r@).contains("--int8"@) <==> precision == Precision::INT8,
            string_views(r@).contains("--fp8"@) <==> precision == Precision::FP8,
    {
        proof {
            lemma_trtexec_precision_flag(
                onnx_path@,
                output_path@,
                precision,
                *config,
                opt_str_view(calib_cache),
            );
        }
        let mut args: Vec<String> = Vec::new();
        push_text(&mut args, concat2("--onnx=", onnx_path));
        push_text(&mut args, concat2("--saveEngine=", output_path));
        push_text(&mut args, decimal_arg("--workspace=", config.workspace_mb));
        let ghost head = string_views(args@);
        let mut flags = ModelOptimizer::precision_flags(precision, calib_cache);
        let mut tuning = ModelOptimizer::tuning_flags(config);
        let ghost fv = string_views(flags@);
        let ghost tv = string_views(tuning@);
        args.append(&mut flags);
        assert(string_views(args@) =~= head + fv);
        let ghost mid = string_views(args@);
        args.append(&mut tuning);
        assert(string_views(args@) =~= mid + tv);
        assert(string_views(args@) =~= trtexec_args(
            onnx_path@,
            output_path@,
            precision,
            *config,
            opt_str_view(calib_cache),
        ));
        args
    }

    /// The `trtexec` arguments of a TensorRT build (no calibration cache);
    /// building them always succeeds.
    pub fn build_nvidia_command(
        onnx_path: &str,
        output_path: &str,
        precision: Precision,
        config: &OptimizerConfig,
    ) -> (r: Result<Vec<String>, MiddlewareError>)
        ensures
            r matches Ok(v) && string_views(v@) == trtexec_args(
                onnx_path@,
                output_path@,
                precision,
                *config,
                None,
            ),
            r matches Ok(v) && (string_views(v@).contains("--fp16"@) <==> precision
                != Precision::FP32),
            r matches Ok(v) && (string_views(v@).contains("--int8"@) <==> precision
                == Precision::INT8),
            r matches Ok(v) && (string_views(v@).contains("--fp8"@) <==> precision
                == Precision::FP8),
    {
        Ok(ModelOptimizer::trtexec_args(onnx_path, output_path, precision, config, None))
    }

    fn qualcomm_arg_list(onnx_path: &str, output_path: &str, precision: Precision, input_list: bool) -> (r:
        Vec<String>)
        ensures
            string_views(r@) == qualcomm_args(onnx_path@, output_path@, precision, input_list),
    {
        let mut args: Vec<String> = Vec::new();
        push_text(&mut args, concat2("--input_network=", onnx_path));
        push_text(&mut args, concat2("--output_path=", output_path));
        let ghost base = string_views(args@);
        if precision == Precision::INT8 {
            if input_list {
                push_lit(&mut args, "--input_list=calibration_list.txt");
            }
            let ghost mid = string_views(args@);
            push_lit(&mut args, "--act_bitwidth=8");
            push_lit(&mut args, "--weight_bitwidth=8");
            push_lit(&mut args, "--bias_bitwidth=32");
            assert(string_views(args@) =~= mid + seq![
                "--act_bitwidth=8"@,
                "--weight_bitwidth=8"@,
                "--bias_bitwidth=32"@,
            ]);
        }
        assert(string_views(args@) =~= qualcomm_args(
            onnx_path@,
            output_path@,
            precision,
            input_list,
        ));
        args
    }

    /// The Qualcomm SNPE/QNN conversion arguments.
    pub fn build_qualcomm_command(onnx_path: &str, output_path: &str, precision: Precision) -> (r:
        Vec<String>)
        ensures
            string_views(r@) == qualcomm_args(onnx_path@, output_path@, precision, false),
    {
        ModelOptimizer::qualcomm_arg_list(onnx_path, output_path, precision, false)
    }

    fn ti_arg_list(
        onnx_path: &str,
        artifacts: &str,
        precision: Precision,
        calib_dir: Option<&str>,
    ) -> (r: Vec<String>)
        ensures
            string_views(r@) == ti_args(onnx_path@, artifacts@, precision, opt_str_view(calib_dir)),
    {
        let mut args: Vec<String> = Vec::new();
        push_lit(&mut args, "--modelType=onnx");
        push_text(&mut args, concat2("--modelFile=", onnx_path));
        push_text(&mut args, concat2("--artifactsDir=", artifacts));
        push_lit(&mut args, "--numFrames=50");
        let ghost base = string_views(args@);
        if precision == Precision::INT8 {
            push_lit(&mut args, "--quantization=1");
            push_lit(&mut args, "--activationBitWidth=8");
            push_lit(&mut args, "--weightBitWidth=8");
        } else {
            push_lit(&mut args, "--quantization=0");
        }
        let ghost q = if precision == Precision::INT8 {
            seq!["--quantization=1"@, "--activationBitWidth=8"@, "--weightBitWidth=8"@]
        } else {
            seq!["--quantization=0"@]
        };
        assert(string_views(args@) =~= base + q);
        let ghost base = string_views(args@);
        match calib_dir {
            Some(d) => push_text(&mut args, concat2("--calibFramesDir=", d)),
            None => {},
        }
        assert(string_views(args@) =~= ti_args(
            onnx_path@,
            artifacts@,
            precision,
            opt_str_view(calib_dir),
        ));
        args
    }

    /// The TI TIDL import arguments, with `output_path` as the artifacts
    /// directory.
    pub fn build_ti_command(onnx_path: &str, output_path: &str, precision: Precision) -> (r: Vec<
        String,
    >)
        ensures
            string_views(r@) == ti_args(onnx_path@, output_path@, precision, None),
    {
        ModelOptimizer::ti_arg_list(onnx_path, output_path, precision, None)
    }
}

/// The converter directory for the build's architecture.
pub open spec fn arch_dir(aarch64: bool) -> Seq<char> {
    if aarch64 {
        "aarch64-linux-clang"@
    } else {
        "x86_64-linux-clang"@
    }
}

/// The error when neither Qualcomm SDK is installed.
pub open spec fn no_qualcomm_sdk() -> ErrorView {
    ErrorView::OptimizationFailed(
        "Neither SNPE_ROOT nor QNN_SDK_ROOT is set. Install the Qualcomm Neural Processing SDK to enable optimization."@,
    )
}

/// The error when neither TI SDK is installed.
pub open spec fn no_ti_sdk() -> ErrorView {
    ErrorView::OptimizationFailed(
        "Neither TIDL_TOOLS_PATH nor EDGEAI_SDK_PATH is set. Install the TI Edge AI SDK to enable optimization."@,
    )
}

/// The shell command that converts a model for Qualcomm hardware: QNN when
/// its SDK root is known, else SNPE (ONNX to DLC, then INT8 quantization).
pub open spec fn qualcomm_command(
    onnx: Seq<char>,
    out: Seq<char>,
    p: Precision,
    qnn_root: Option<Seq<char>>,
    snpe_root: Option<Seq<char>>,
    aarch64: bool,
) -> Result<Seq<char>, ErrorView> {
    match qnn_root {
        Some(q) => Ok(
            path_join(q, "bin/"@ + arch_dir(aarch64) + "/qnn-onnx-converter"@) + " "@ + join(
                qualcomm_args(onnx, out, p, true),
                " "@,
            ),
        ),
        None => match snpe_root {
            None => Err(no_qualcomm_sdk()),
            Some(r) => {
                let dlc = replaced(out, ".bin"@, ".dlc"@);
                let step1 = path_join(r, "bin/"@ + arch_dir(aarch64) + "/snpe-onnx-to-dlc"@)
                    + " --input_network "@ + onnx + " --output_path "@ + dlc;
                if p == Precision::INT8 {
                    Ok(
                        step1 + " && "@ + path_join(
                            r,
                            "bin/"@ + arch_dir(aarch64) + "/snpe-dlc-quantize"@,
                        ) + " --input_dlc "@ + dlc + " --output_dlc "@ + out
                            + " --input_list calibration_list.txt"@,
                    )
                } else {
                    Ok(step1)
                }
            },
        },
    }
}

/// Where the TIDL import puts its artifacts: next to the engine path, named
/// after the model.
pub open spec fn ti_artifacts_dir(onnx: Seq<char>, out: Seq<char>) -> Seq<char> {
    path_join(parent_or_dot(out), stem_or_empty(onnx) + "_tidl_artifacts"@)
}

/// The TIDL import command (the TIDL tools root is preferred over the Edge
/// AI SDK root).
pub open spec fn ti_command(
    onnx: Seq<char>,
    out: Seq<char>,
    p: Precision,
    calib_dir: Option<Seq<char>>,
    tidl_root: Option<Seq<char>>,
    edgeai_root: Option<Seq<char>>,
) -> Result<Seq<char>, ErrorView> {
    match tidl_root {
        Some(t) => Ok(
            path_join(t, "tidl_model_import"@) + " "@ + join(
                ti_args(onnx, ti_artifacts_dir(onnx, out), p, calib_dir),
                " "@,
            ),
        ),
        None => match edgeai_root {
            Some(e) => Ok(
                path_join(e, "tidl_model_import"@) + " "@ + join(
                    ti_args(onnx, ti_artifacts_dir(onnx, out), p, calib_dir),
                    " "@,
                ),
            ),
            None => Err(no_ti_sdk()),
        },
    }
}

/// The view of a text result.
pub open spec fn text_result(r: Result<String, MiddlewareError>) -> Result<Seq<char>, ErrorView> {
    match r {
        Ok(s) => Ok(s@),
        Err(e) => Err(e@),
    }
}

/// The summary of a failed optimization that falls back to the model.
pub open spec fn fallback_summary(e: ErrorView) -> Seq<char> {
    "Optimization failed ("@ + e.message() + "), using original ONNX"@
}

/// The next step of an optimization.
pub enum OptimizationStep {
    /// An optimized engine is already cached.
    UseCached { engine_path: String, summary: String },
    /// Run the vendor's converter.
    Convert { vendor: Vendor },
    /// Keep the original model.
    FallBack { engine_path: String, summary: String },
}

/// The `trtexec` install locations probed before `PATH`.
pub open spec fn trtexec_candidates() -> Seq<Seq<char>> {
    seq!["/usr/src/tensorrt/bin/trtexec"@, "/usr/local/bin/trtexec"@, "/usr/bin/trtexec"@]
}

/// The error when `trtexec` is nowhere to be found.
pub open spec fn no_trtexec() -> ErrorView {
    ErrorView::DependencyMissing(
        "trtexec not found. Install TensorRT or add trtexec to PATH. Common location on Jetson/Orin: /usr/src/tensorrt/bin/trtexec"@,
    )
}

/// Whether a path names a calibration image (JPEG, PNG or BMP by its
/// extension, in any case).
pub open spec fn is_calibration_image(path: Seq<char>) -> bool {
    match path_extension(path) {
        Some(e) => {
            let l = unicode_lowercase(e);
            l == "jpg"@ || l == "jpeg"@ || l == "png"@ || l == "bmp"@
        },
        None => false,
    }
}

/// The calibration images among `paths`, in listing order.
pub open spec fn calibration_pick(paths: Seq<Seq<char>>) -> Seq<Seq<char>>
    decreases paths.len(),
{
    if paths.len() == 0 {
        Seq::empty()
    } else if is_calibration_image(paths.last()) {
        calibration_pick(paths.drop_last()).push(paths.last())
    } else {
        calibration_pick(paths.drop_last())
    }
}

/// The calibration images used: the first `max_count` of them, or all of
/// them when `max_count` is 0.
pub open spec fn calibration_selection(paths: Seq<Seq<char>>, max_count: nat) -> Seq<Seq<char>> {
    let all = calibration_pick(paths);
    if max_count == 0 || all.len() <= max_count {
        all
    } else {
        all.take(max_count as int)
    }
}

proof fn lemma_pick_prefix(paths: Seq<Seq<char>>, i: int)
    requires
        0 <= i <= paths.len(),
    ensures
        calibration_pick(paths.take(i)).len() <= calibration_pick(paths).len(),
        calibration_pick(paths.take(i)) == calibration_pick(paths).take(
            calibration_pick(paths.take(i)).len() as int,
        ),
    decreases paths.len() - i,
{
    if i < paths.len() {
        lemma_pick_prefix(paths, i + 1);
        assert(paths.take(i + 1).drop_last() =~= paths.take(i));
        let a = calibration_pick(paths.take(i));
        let b = calibration_pick(paths.take(i + 1));
        assert(a =~= b.take(a.len() as int));
        assert(a =~= calibration_pick(paths).take(a.len() as int));
    } else {
        assert(paths.take(i) =~= paths);
        assert(calibration_pick(paths).take(calibration_pick(paths).len() as int)
            =~= calibration_pick(paths));
    }
}

impl ModelOptimizer {
    /// The converter command for Qualcomm hardware; it fails when neither
    /// SDK root is known.
    pub fn qualcomm_conversion_command(
        onnx_path: &str,
        output_path: &str,
        precision: Precision,
        qnn_root: Option<&str>,
        snpe_root: Option<&str>,
        aarch64: bool,
    ) -> (r: Result<String, MiddlewareError>)
        ensures
            text_result(r) == qualcomm_command(
                onnx_path@,
                output_path@,
                precision,
                opt_str_view(qnn_root),
                opt_str_view(snpe_root),
                aarch64,
            ),
    {
        let arch = if aarch64 {
            "aarch64-linux-clang"
        } else {
            "x86_64-linux-clang"
        };
        match qnn_root {
            Some(q) => {
                let converter = join_path(q, concat3("bin/", arch, "/qnn-onnx-converter").as_str());
                let args = ModelOptimizer::qualcomm_arg_list(onnx_path, output_path, precision, true);
                let joined = join_strings(&args, " ");
                Ok(concat3(converter.as_str(), " ", joined.as_str()))
            },
            None => match snpe_root {
                None => Err(
                    MiddlewareError::OptimizationFailed(
                        String::from_str(
                            "Neither SNPE_ROOT nor QNN_SDK_ROOT is set. Install the Qualcomm Neural Processing SDK to enable optimization.",
                        ),
                    ),
                ),
                Some(r) => {
                    let converter = join_path(r, concat3("bin/", arch, "/snpe-onnx-to-dlc").as_str());
                    proof {
                        reveal_strlit(".bin");
                    }
                    let dlc = replace_all(output_path, ".bin", ".dlc");
                    let mut step1 = concat3(converter.as_str(), " --input_network ", onnx_path);
                    step1.append(" --output_path ");
                    step1.append(dlc.as_str());
                    if precision == Precision::INT8 {
                        let quantizer = join_path(
                            r,
                            concat3("bin/", arch, "/snpe-dlc-quantize").as_str(),
                        );
                        let mut cmd = concat3(step1.as_str(), " && ", quantizer.as_str());
                        cmd.append(" --input_dlc ");
                        cmd.append(dlc.as_str());
                        cmd.append(" --output_dlc ");
                        cmd.append(output_path);
                        cmd.append(" --input_list calibration_list.txt");
                        Ok(cmd)
                    } else {
                        Ok(step1)
                    }
                },
            },
        }
    }

    /// The TIDL import command and its artifacts directory; it fails when
    /// neither TI SDK root is known.
    pub fn ti_import_command(
        onnx_path: &str,
        output_path: &str,
        precision: Precision,
        config: &OptimizerConfig,
        tidl_root: Option<&str>,
        edgeai_root: Option<&str>,
    ) -> (r: Result<(String, String), MiddlewareError>)
        ensures
            match r {
                Ok((cmd, artifacts)) => Ok::<Seq<char>, ErrorView>(cmd@) == ti_command(
                    onnx_path@,
                    output_path@,
                    precision,
                    opt_view(config.calibration_dir),
                    opt_str_view(tidl_root),
                    opt_str_view(edgeai_root),
                ) && artifacts@ == ti_artifacts_dir(onnx_path@, output_path@),
                Err(e) => Err::<Seq<char>, ErrorView>(e@) == ti_command(
                    onnx_path@,
                    output_path@,
                    precision,
                    opt_view(config.calibration_dir),
                    opt_str_view(tidl_root),
                    opt_str_view(edgeai_root),
                ),
            },
    {
        let root = match tidl_root {
            Some(t) => t,
            None => match edgeai_root {
                Some(e) => e,
                None => {
                    return Err(
                        MiddlewareError::OptimizationFailed(
                            String::from_str(
                                "Neither TIDL_TOOLS_PATH nor EDGEAI_SDK_PATH is set. Install the TI Edge AI SDK to enable optimization.",
                            ),
                        ),
                    );
                },
            },
        };
        let dir = parent_text(output_path);
        let stem = stem_text(onnx_path);
        let artifacts = join_path(dir.as_str(), concat2(stem.as_str(), "_tidl_artifacts").as_str());
        let tool = join_path(root, "tidl_model_import");
        let calib: Option<&str> = match &config.calibration_dir {
            Some(d) => Some(d.as_str()),
            None => None,
        };
        let args = ModelOptimizer::ti_arg_list(onnx_path, artifacts.as_str(), precision, calib);
        let joined = join_strings(&args, " ");
        Ok((concat3(tool.as_str(), " ", joined.as_str()), artifacts))
    }

    /// Where an existing INT8 calibration cache for a model would be:
    /// `<model dir>/<stem>_calibration.cache`.
    pub fn calibration_cache_path(onnx_path: &str) -> (r: String)
        ensures
            r@ == path_join(parent_or_dot(onnx_path@), stem_or_empty(onnx_path@)
                + "_calibration.cache"@),
    {
        let dir = parent_text(onnx_path);
        let stem = stem_text(onnx_path);
        join_path(dir.as_str(), concat2(stem.as_str(), "_calibration.cache").as_str())
    }

    /// The first step of an optimization: a missing model is an error, a
    /// cached engine is reused, a supported vendor converts, any other
    /// vendor keeps the original model.
    pub fn optimization_step(
        onnx_path: &str,
        onnx_exists: bool,
        vendor: Vendor,
        optimized_path: &str,
        cached_exists: bool,
    ) -> (r: Result<OptimizationStep, MiddlewareError>)
        ensures
            !onnx_exists ==> (r matches Err(e) && e@ == ErrorView::OptimizationFailed(
                "ONNX model not found: "@ + onnx_path@,
            )),
            onnx_exists && cached_exists ==> (r matches Ok(
                OptimizationStep::UseCached { engine_path, summary },
            ) && engine_path@ == optimized_path@ && summary@ == "Using cached optimized engine: "@
                + optimized_path@),
            onnx_exists && !cached_exists && (vendor == Vendor::Nvidia || vendor == Vendor::Qualcomm
                || vendor == Vendor::TexasInstruments) ==> r == Ok::<
                OptimizationStep,
                MiddlewareError,
            >(OptimizationStep::Convert { vendor }),
            onnx_exists && !cached_exists && (vendor == Vendor::Cpu || vendor == Vendor::Unknown)
                ==> (r matches Ok(OptimizationStep::FallBack { engine_path, summary })
                && engine_path@ == onnx_path@ && summary@ == fallback_summary(
                ErrorView::OptimizationFailed(
                    "Optimization not supported for vendor: "@ + vendor_name(vendor),
                ),
            )),
    {
        if !onnx_exists {
            return Err(
                MiddlewareError::OptimizationFailed(concat2("ONNX model not found: ", onnx_path)),
            );
        }
        if cached_exists {
            return Ok(
                OptimizationStep::UseCached {
                    engine_path: String::from_str(optimized_path),
                    summary: concat2("Using cached optimized engine: ", optimized_path),
                },
            );
        }
        match vendor {
            Vendor::Nvidia | Vendor::Qualcomm | Vendor::TexasInstruments => Ok(
                OptimizationStep::Convert { vendor },
            ),
            _ => {
                let e = MiddlewareError::OptimizationFailed(
                    concat2("Optimization not supported for vendor: ", vendor.name()),
                );
                Ok(ModelOptimizer::fallback_step(onnx_path, &e))
            },
        }
    }

    /// Keeps the original model after a failed conversion.
    pub fn fallback_step(onnx_path: &str, error: &MiddlewareError) -> (r: OptimizationStep)
        ensures
            r matches OptimizationStep::FallBack { engine_path, summary } && engine_path@
                == onnx_path@ && summary@ == fallback_summary(error@),
    {
        let m = error.to_string();
        OptimizationStep::FallBack {
            engine_path: String::from_str(onnx_path),
            summary: concat3("Optimization failed (", m.as_str(), "), using original ONNX"),
        }
    }

    /// The summary of a dry run that would execute `command`.
    pub fn dry_run_summary(command: &str) -> (s: String)
        ensures
            s@ == "[DRY RUN] Would execute: "@ + command@,
    {
        concat2("[DRY RUN] Would execute: ", command)
    }

    /// Whether a summary describes a dry run.
    pub fn is_dry_run_summary(summary: &str) -> (b: bool)
        ensures
            b == has_prefix(summary@, "[DRY RUN]"@),
    {
        str_starts_with(summary, "[DRY RUN]")
    }

    /// The `trtexec` install locations probed before `PATH`, in order.
    pub fn trtexec_locations() -> (r: Vec<String>)
        ensures
            string_views(r@) == trtexec_candidates(),
    {
        let mut v: Vec<String> = Vec::new();
        push_lit(&mut v, "/usr/src/tensorrt/bin/trtexec");
        push_lit(&mut v, "/usr/local/bin/trtexec");
        push_lit(&mut v, "/usr/bin/trtexec");
        assert(string_views(v@) =~= trtexec_candidates());
        v
    }

    /// Picks `trtexec`: the first install location present, else what a
    /// `PATH` lookup printed (trimmed, when not blank), else an error.
    pub fn select_trtexec(present: &Vec<bool>, which_stdout: Option<&str>) -> (r: Result<
        String,
        MiddlewareError,
    >)
        requires
            present@.len() == 3,
        ensures
            present@[0] ==> (r matches Ok(p) && p@ == trtexec_candidates()[0]),
            !present@[0] && present@[1] ==> (r matches Ok(p) && p@ == trtexec_candidates()[1]),
            !present@[0] && !present@[1] && present@[2] ==> (r matches Ok(p) && p@
                == trtexec_candidates()[2]),
            !present@[0] && !present@[1] && !present@[2] ==> match which_stdout {
                Some(o) => if trim(o@).len() > 0 {
                    r matches Ok(p) && p@ == trim(o@)
                } else {
                    r matches Err(e) && e@ == no_trtexec()
                },
                None => r matches Err(e) && e@ == no_trtexec(),
            },
    {
        let locations = ModelOptimizer::trtexec_locations();
        assert(locations@.len() == string_views(locations@).len());
        let mut i: usize = 0;
        while i < 3
            invariant
                i <= 3,
                present@.len() == 3,
                string_views(locations@) == trtexec_candidates(),
                locations@.len() == 3,
                forall|k: int| 0 <= k < i ==> !present@[k],
            decreases 3 - i,
        {
            if present[i] {
                assert(locations@[i as int]@ == string_views(locations@)[i as int]);
                return Ok(locations[i].clone());
            }
            i += 1;
        }
        match which_stdout {
            Some(o) => {
                let t = trim_str(o);
                if !t.as_str().is_empty() {
                    return Ok(t);
                }
            },
            None => {},
        }
        Err(
            MiddlewareError::DependencyMissing(
                String::from_str(
                    "trtexec not found. Install TensorRT or add trtexec to PATH. Common location on Jetson/Orin: /usr/src/tensorrt/bin/trtexec",
                ),
            ),
        )
    }

    /// Whether `path` names a calibration image.
    pub fn is_calibration_image(path: &str) -> (b: bool)
        ensures
            b == is_calibration_image(path@),
    {
        match extension(path) {
            Some(e) => {
                let l = to_lowercase(e.as_str());
                str_eq(l.as_str(), "jpg") || str_eq(l.as_str(), "jpeg") || str_eq(l.as_str(), "png")
                    || str_eq(l.as_str(), "bmp")
            },
            None => false,
        }
    }

    /// The calibration images among the directory listing `paths`: the first
    /// `max_count` of them in listing order (all when `max_count` is 0),
    /// then sorted.
    pub fn calibration_images(paths: &Vec<String>, max_count: usize) -> (r: Vec<String>)
        ensures
            string_views(r@).to_multiset() == calibration_selection(
                string_views(paths@),
                max_count as nat,
            ).to_multiset(),
            forall|i: int, j: int| 0 <= i < j < r@.len() ==> text_le(#[trigger] r@[i]@, #[trigger] r@[j]@),
    {
        let ghost ps = string_views(paths@);
        let mut images: Vec<String> = Vec::new();
        let mut i: usize = 0;
        while i < paths.len()
            invariant_except_break
                max_count > 0 ==> images@.len() < max_count,
            invariant
                i <= paths@.len(),
                ps == string_views(paths@),
                string_views(images@) == calibration_pick(ps.take(i as int)),
                max_count > 0 ==> images@.len() <= max_count,
            ensures
                i == paths@.len() || (max_count > 0 && images@.len() == max_count),
            decreases paths.len() - i,
        {
            assert(ps.take(i + 1).drop_last() =~= ps.take(i as int));
            assert(ps.take(i + 1).last() == paths@[i as int]@);
            let ghost before = images@.len();
            assert(before == string_views(images@).len());
            if ModelOptimizer::is_calibration_image(paths[i].as_str()) {
                push_text(&mut images, paths[i].clone());
            }
            assert(images@.len() == string_views(images@).len());
            assert(images@.len() <= before + 1);
            i += 1;
            if max_count > 0 && images.len() >= max_count {
                break;
            }
        }
        proof {
            lemma_pick_prefix(ps, i as int);
            let all = calibration_pick(ps);
            let got = string_views(images@);
            assert(got.len() == images@.len());
            if i == paths@.len() {
                assert(ps.take(i as int) =~= ps);
                if !(max_count == 0 || all.len() <= max_count) {
                    assert(false);
                }
            } else {
                assert(got =~= all.take(max_count as int));
                if all.len() <= max_count {
                    assert(all.take(max_count as int) =~= all);
                }
            }
        }
        assert(string_views(images@) == calibration_selection(ps, max_count as nat));
        sort_texts(&mut images);
        images
    }
}

} // verus!
