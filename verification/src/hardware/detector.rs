//! Compile-time hardware profiles, CPU-name detection from system text, and
//! shared-library discovery from directory listings.

use vstd::prelude::*;

use crate::hardware::profile::{Accelerator, HardwareProfile, Vendor};
use crate::utils::text::{
    chars_of, concat2, has_infix, has_prefix, has_suffix, range_pieces, split_pieces,
    split_ranges, str_contains, str_ends_with, str_starts_with, string_views, trim,
    trimmed_range,
};

verus! {

/// The first `':'` in `l` (meaningful when `l` contains one).
pub open spec fn first_colon(l: Seq<char>) -> int {
    choose|i: int| 0 <= i < l.len() && l[i] == ':' && forall|j: int| 0 <= j < i ==> l[j] != ':'
}

/// The CPU model a `/proc/cpuinfo` line names: for a line that starts with
/// `model name` and holds a `':'`, the trimmed text after the first `':'`.
pub open spec fn model_line_value(l: Seq<char>) -> Option<Seq<char>> {
    if has_prefix(l, "model name"@) && l.contains(':') {
        Some(trim(l.skip(first_colon(l) + 1)))
    } else {
        None
    }
}

/// The value of the first line of `ls` that names a CPU model.
pub open spec fn first_model_value(ls: Seq<Seq<char>>) -> Option<Seq<char>>
    decreases ls.len(),
{
    if ls.len() == 0 {
        None
    } else if model_line_value(ls[0]) is Some {
        model_line_value(ls[0])
    } else {
        first_model_value(ls.drop_first())
    }
}

proof fn lemma_first_colon(l: Seq<char>, i: int)
    requires
        0 <= i < l.len(),
        l[i] == ':',
        forall|j: int| 0 <= j < i ==> l[j] != ':',
    ensures
        first_colon(l) == i,
{
    assert(l.contains(':'));
    let k = first_colon(l);
    assert(exists|x: int|
        0 <= x < l.len() && l[x] == ':' && forall|j: int| 0 <= j < x ==> l[j] != ':');
    if k < i {
        assert(l[k] == ':');
    } else if k > i {
        assert(l[i] != ':');
    }
}

fn model_value_of_range(v: &Vec<char>, lo: usize, hi: usize) -> (r: Option<String>)
    requires
        lo <= hi <= v@.len(),
    ensures
        match model_line_value(v@.subrange(lo as int, hi as int)) {
            Some(x) => r matches Some(s) && s@ == x,
            None => r is None,
        },
{
    let ghost l = v@.subrange(lo as int, hi as int);
    let key = chars_of("model name");
    if hi - lo < key.len() {
        return None;
    }
    let mut j: usize = 0;
    while j < key.len()
        invariant
            lo <= hi <= v@.len(),
            key@.len() <= hi - lo,
            key@ == "model name"@,
            l == v@.subrange(lo as int, hi as int),
            j <= key@.len(),
            forall|k: int| 0 <= k < j ==> v@[lo + k] == key@[k],
        decreases key.len() - j,
    {
        if v[lo + j] != key[j] {
            assert(l.take(key@.len() as int)[j as int] != key@[j as int]);
            assert(l.take(key@.len() as int) != key@);
            assert(!has_prefix(l, "model name"@));
            return None;
        }
        j += 1;
    }
    assert(l.take(key@.len() as int) =~= key@);
    let mut c: usize = lo;
    while c < hi && v[c] != ':'
        invariant
            lo <= c <= hi <= v@.len(),
            l == v@.subrange(lo as int, hi as int),
            forall|k: int| lo <= k < c ==> v@[k] != ':',
        decreases hi - c,
    {
        c += 1;
    }
    if c == hi {
        assert forall|k: int| 0 <= k < l.len() implies l[k] != ':' by {
            assert(l[k] == v@[lo + k]);
        }
        return None;
    }
    proof {
        assert(l[c - lo] == ':');
        assert forall|k: int| 0 <= k < c - lo implies l[k] != ':' by {
            assert(l[k] == v@[lo + k]);
        }
        lemma_first_colon(l, c - lo);
        assert(l.skip(c - lo + 1) =~= v@.subrange(c + 1, hi as int));
    }
    Some(trimmed_range(v, c + 1, hi))
}

/// The CPU model named in `/proc/cpuinfo` text: the trimmed value after
/// the first `':'` of the first line that starts with `model name`.
pub fn cpu_name_from_cpuinfo(text: &str) -> (r: Option<String>)
    ensures
        match first_model_value(split_pieces(text@, '\n')) {
            Some(x) => r matches Some(s) && s@ == x,
            None => r is None,
        },
{
    let v = chars_of(text);
    let ranges = split_ranges(&v, '\n');
    let ghost ps = range_pieces(v@, ranges@);
    let mut k: usize = 0;
    assert(ps.skip(0) =~= ps);
    while k < ranges.len()
        invariant
            k <= ranges@.len(),
            ps == range_pieces(v@, ranges@),
            ps == split_pieces(text@, '\n'),
            forall|j: int| 0 <= j < ranges@.len() ==> ranges@[j].0 <= #[trigger] ranges@[j].1
                <= v@.len(),
            first_model_value(ps) == first_model_value(ps.skip(k as int)),
        decreases ranges.len() - k,
    {
        let (lo, hi) = ranges[k];
        assert(ps.skip(k as int)[0] == v@.subrange(lo as int, hi as int));
        assert(ps.skip(k as int).drop_first() =~= ps.skip(k + 1));
        let r = model_value_of_range(&v, lo, hi);
        if r.is_some() {
            return r;
        }
        k += 1;
    }
    assert(ps.skip(ranges@.len() as int).len() == 0);
    None
}

/// The CPU name: from `/proc/cpuinfo` text when it names one, else the
/// trimmed output of `uname -m`, else none.
pub open spec fn detected_cpu_name(
    cpuinfo: Option<Seq<char>>,
    uname: Option<Seq<char>>,
) -> Option<Seq<char>> {
    let from_info = match cpuinfo {
        Some(t) => first_model_value(split_pieces(t, '\n')),
        None => None,
    };
    match from_info {
        Some(n) => Some(n),
        None => match uname {
            Some(u) => Some(trim(u)),
            None => None,
        },
    }
}

/// The view of an optional text.
pub open spec fn opt_view(o: Option<&str>) -> Option<Seq<char>> {
    match o {
        Some(s) => Some(s@),
        None => None,
    }
}

/// Detects the CPU name from the text of `/proc/cpuinfo` (when it could be
/// read) and the standard output of `uname -m` (when it ran).
pub fn detect_cpu_name(cpuinfo: Option<&str>, uname_output: Option<&str>) -> (r: Option<String>)
    ensures
        match detected_cpu_name(opt_view(cpuinfo), opt_view(uname_output)) {
            Some(x) => r matches Some(s) && s@ == x,
            None => r is None,
        },
{
    if let Some(text) = cpuinfo {
        let n = cpu_name_from_cpuinfo(text);
        if n.is_some() {
            return n;
        }
    }
    match uname_output {
        Some(u) => {
            let v = chars_of(u);
            let t = trimmed_range(&v, 0, v.len());
            assert(v@.subrange(0, v@.len() as int) =~= u@);
            Some(t)
        },
        None => None,
    }
}

/// The CPU profile: vendor `Cpu`, FP32 only, one accelerator named after
/// the CPU (`detected_name`, or "Generic CPU" when none was detected).
pub fn cpu_fallback_profile(detected_name: Option<String>) -> (p: HardwareProfile)
    ensures
        p.vendor == Vendor::Cpu,
        p.device_name@ == (match detected_name {
            Some(n) => n@,
            None => "Generic CPU"@,
        }),
        p.supports_fp32 && !p.supports_fp16 && !p.supports_int8 && !p.supports_fp8,
        p.accelerators@.len() == 1,
        p.accelerators@[0].name@ == p.device_name@,
        p.accelerators@[0].device_index == 0,
        p.accelerators@[0].memory_bytes == 0,
{
    let cpu_name = match detected_name {
        Some(n) => n,
        None => String::from_str("Generic CPU"),
    };
    let mut accelerators: Vec<Accelerator> = Vec::new();
    accelerators.push(Accelerator { name: cpu_name.clone(), device_index: 0, memory_bytes: 0 });
    HardwareProfile {
        vendor: Vendor::Cpu,
        device_name: cpu_name,
        supports_fp32: true,
        supports_fp16: false,
        supports_int8: false,
        supports_fp8: false,
        accelerators,
    }
}

/// A synthetic NVIDIA profile for test environments: FP32, FP16 and INT8,
/// one 4 GiB accelerator.
pub fn simulated_profile() -> (p: HardwareProfile)
    ensures
        p.vendor == Vendor::Nvidia,
        p.device_name@ == "Simulated Accelerator"@,
        p.supports_fp32 && p.supports_fp16 && p.supports_int8 && !p.supports_fp8,
        p.accelerators@.len() == 1,
        p.accelerators@[0].name@ == "Simulated Accelerator"@,
        p.accelerators@[0].device_index == 0,
        p.accelerators@[0].memory_bytes == 4 * 1024 * 1024 * 1024,
{
    let mut accelerators: Vec<Accelerator> = Vec::new();
    accelerators.push(
        Accelerator {
            name: String::from_str("Simulated Accelerator"),
            device_index: 0,
            memory_bytes: 4 * 1024 * 1024 * 1024,
        },
    );
    HardwareProfile {
        vendor: Vendor::Nvidia,
        device_name: String::from_str("Simulated Accelerator"),
        supports_fp32: true,
        supports_fp16: true,
        supports_int8: true,
        supports_fp8: false,
        accelerators,
    }
}

/// The directories searched for shared libraries, in order.
pub open spec fn search_dirs(
    aarch64: bool,
    cuda_root: Option<Seq<char>>,
    trt_lib: Option<Seq<char>>,
) -> Seq<Seq<char>> {
    let arch_dir = if aarch64 {
        "/usr/lib/aarch64-linux-gnu"@
    } else {
        "/usr/lib/x86_64-linux-gnu"@
    };
    let cuda_dir = match cuda_root {
        Some(r) => r + "/lib64"@,
        None => "/usr/local/cuda/lib64"@,
    };
    let base = seq![arch_dir, "/usr/lib"@, "/usr/local/lib"@, "/opt/qcom/lib"@, cuda_dir];
    match trt_lib {
        Some(t) => base.push(t),
        None => base,
    }
}

/// With a CUDA root given, the directory `lib64` under it is scanned; the
/// default root `/usr/local/cuda` gives the same directories as no root, so
/// without one `/usr/local/cuda/lib64` is scanned.
pub proof fn lemma_cuda_root_lib64_searched(
    aarch64: bool,
    cuda_root: Seq<char>,
    trt_lib: Option<Seq<char>>,
)
    ensures
        search_dirs(aarch64, Some(cuda_root), trt_lib).contains(cuda_root + "/lib64"@),
        search_dirs(aarch64, Some("/usr/local/cuda"@), trt_lib) == search_dirs(
            aarch64,
            None,
            trt_lib,
        ),
        search_dirs(aarch64, None, trt_lib).contains("/usr/local/cuda/lib64"@),
{
    reveal_strlit("/usr/local/cuda");
    reveal_strlit("/lib64");
    reveal_strlit("/usr/local/cuda/lib64");
    assert("/usr/local/cuda"@ + "/lib64"@ =~= "/usr/local/cuda/lib64"@);
    assert(search_dirs(aarch64, Some(cuda_root), trt_lib)[4] == cuda_root + "/lib64"@);
    assert(search_dirs(aarch64, None, trt_lib)[4] == "/usr/local/cuda/lib64"@);
}

/// Whatever the roots, the generic directories `/usr/lib`, `/usr/local/lib`
/// and `/opt/qcom/lib` and the architecture's own system directory are
/// scanned, and so is the TensorRT directory when one is set.
pub proof fn lemma_search_dirs_cover(
    aarch64: bool,
    cuda_root: Option<Seq<char>>,
    trt_lib: Option<Seq<char>>,
)
    ensures
        search_dirs(aarch64, cuda_root, trt_lib).contains("/usr/lib"@),
        search_dirs(aarch64, cuda_root, trt_lib).contains("/usr/local/lib"@),
        search_dirs(aarch64, cuda_root, trt_lib).contains("/opt/qcom/lib"@),
        aarch64 ==> search_dirs(aarch64, cuda_root, trt_lib).contains(
            "/usr/lib/aarch64-linux-gnu"@,
        ),
        !aarch64 ==> search_dirs(aarch64, cuda_root, trt_lib).contains(
            "/usr/lib/x86_64-linux-gnu"@,
        ),
        trt_lib matches Some(t) ==> search_dirs(aarch64, cuda_root, trt_lib).contains(t),
{
    let d = search_dirs(aarch64, cuda_root, trt_lib);
    assert(d[1] == "/usr/lib"@);
    assert(d[2] == "/usr/local/lib"@);
    assert(d[3] == "/opt/qcom/lib"@);
    if aarch64 {
        assert(d[0] == "/usr/lib/aarch64-linux-gnu"@);
    } else {
        assert(d[0] == "/usr/lib/x86_64-linux-gnu"@);
    }
    if let Some(t) = trt_lib {
        assert(d[5] == t);
    }
}

/// The library directories to scan: the architecture's system directory,
/// the generic ones, the CUDA library directory (under `cuda_root` when it
/// is set, from `CUDA_ROOT` or else `CUDA_PATH`), and `trt_lib` when set.
pub fn library_search_dirs(aarch64: bool, cuda_root: Option<&str>, trt_lib: Option<&str>) -> (r:
    Vec<String>)
    ensures
        string_views(r@) == search_dirs(aarch64, opt_view(cuda_root), opt_view(trt_lib)),
        cuda_root matches Some(root) ==> string_views(r@).contains(root@ + "/lib64"@),
{
    proof {
        if let Some(root) = cuda_root {
            lemma_cuda_root_lib64_searched(aarch64, root@, opt_view(trt_lib));
        }
    }
    let mut r: Vec<String> = Vec::new();
    if aarch64 {
        r.push(String::from_str("/usr/lib/aarch64-linux-gnu"));
    } else {
        r.push(String::from_str("/usr/lib/x86_64-linux-gnu"));
    }
    r.push(String::from_str("/usr/lib"));
    r.push(String::from_str("/usr/local/lib"));
    r.push(String::from_str("/opt/qcom/lib"));
    match cuda_root {
        Some(root) => r.push(concat2(root, "/lib64")),
        None => r.push(String::from_str("/usr/local/cuda/lib64")),
    }
    match trt_lib {
        Some(t) => r.push(String::from_str(t)),
        None => {},
    }
    assert(string_views(r@) =~= search_dirs(aarch64, opt_view(cuda_root), opt_view(trt_lib)));
    r
}

/// A directory entry names the shared library `name`: it starts with
/// `lib<name>` and ends in `.so` or holds `.so.`.
pub open spec fn names_library(file: Seq<char>, name: Seq<char>) -> bool {
    has_prefix(file, "lib"@ + name) && (has_suffix(file, ".so"@) || has_infix(file, ".so."@))
}

/// Whether a directory entry names the shared library `name`.
pub fn library_file_matches(file_name: &str, name: &str) -> (b: bool)
    ensures
        b == names_library(file_name@, name@),
{
    let target = concat2("lib", name);
    str_starts_with(file_name, target.as_str()) && (str_ends_with(file_name, ".so")
        || str_contains(file_name, ".so."))
}

/// Some entry of some listing names the library.
pub open spec fn listed(listings: Seq<Seq<Seq<char>>>, name: Seq<char>) -> bool {
    exists|d: int, e: int|
        0 <= d < listings.len() && 0 <= e < listings[d].len() && names_library(
            #[trigger] listings[d][e],
            name,
        )
}

/// The views of directory listings.
pub open spec fn listing_views(l: Seq<Vec<String>>) -> Seq<Seq<Seq<char>>> {
    l.map_values(|v: Vec<String>| string_views(v@))
}

/// Whether the shared library `name` is present: some entry of the
/// directory listings names it, or the `ldconfig -p` output (when
/// available) mentions it.
pub fn probe_library_public(
    name: &str,
    dir_listings: &Vec<Vec<String>>,
    ldconfig_output: Option<&str>,
) -> (b: bool)
    ensures
        b == (listed(listing_views(dir_listings@), name@) || (match ldconfig_output {
            Some(o) => has_infix(o@, name@),
            None => false,
        })),
{
    let ghost lv = listing_views(dir_listings@);
    let mut d: usize = 0;
    while d < dir_listings.len()
        invariant
            d <= dir_listings@.len(),
            lv == listing_views(dir_listings@),
            forall|x: int, e: int|
                0 <= x < d && 0 <= e < lv[x].len() ==> !names_library(#[trigger] lv[x][e], name@),
        decreases dir_listings.len() - d,
    {
        let entries = &dir_listings[d];
        let mut e: usize = 0;
        while e < entries.len()
            invariant
                d < dir_listings@.len(),
                *entries == dir_listings@[d as int],
                lv == listing_views(dir_listings@),
                e <= entries@.len(),
                forall|x: int, y: int|
                    0 <= x < d && 0 <= y < lv[x].len() ==> !names_library(
                        #[trigger] lv[x][y],
                        name@,
                    ),
                forall|y: int| 0 <= y < e ==> !names_library(#[trigger] lv[d as int][y], name@),
            decreases entries.len() - e,
        {
            assert(lv[d as int][e as int] == entries@[e as int]@);
            if library_file_matches(entries[e].as_str(), name) {
                assert(names_library(lv[d as int][e as int], name@));
                return true;
            }
            e += 1;
        }
        d += 1;
    }
    match ldconfig_output {
        Some(o) => str_contains(o, name),
        None => false,
    }
}

} // verus!
