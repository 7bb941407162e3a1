//! Dependency checks for a target platform: which probes to run, how each
//! probe's outcome reads as a status, and when the check fails.

use vstd::prelude::*;

use crate::hardware::profile::Vendor;
use crate::utils::errors::{ErrorView, MiddlewareError};
use crate::utils::text::{
    chars_of, concat2, concat3, concat4, has_infix, join, join_strings, push_str, range_pieces,
    split_pieces, split_ranges, str_contains, string_views, trim, trimmed_range,
};

verus! {

/// One dependency check result.
#[derive(Debug)]
pub struct DependencyStatus {
    pub name: String,
    pub required: bool,
    pub found: bool,
    pub version: Option<String>,
    pub detail: String,
}

/// A dependency check result taken as plain values.
pub struct StatusView {
    pub name: Seq<char>,
    pub required: bool,
    pub found: bool,
    pub version: Option<Seq<char>>,
    pub detail: Seq<char>,
}

/// The view of an optional owned text.
pub open spec fn opt_string_view(o: Option<String>) -> Option<Seq<char>> {
    match o {
        Some(s) => Some(s@),
        None => None,
    }
}

impl View for DependencyStatus {
    type V = StatusView;

    open spec fn view(&self) -> StatusView {
        StatusView {
            name: self.name@,
            required: self.required,
            found: self.found,
            version: opt_string_view(self.version),
            detail: self.detail@,
        }
    }
}

/// The report line of a status: a mark (found, missing and required,
/// missing and optional), the name, the version and the detail.
pub open spec fn status_line(s: StatusView) -> Seq<char> {
    let icon = if s.found {
        "✓"@
    } else if s.required {
        "✗"@
    } else {
        "○"@
    };
    let ver = match s.version {
        Some(v) => v,
        None => "—"@,
    };
    "  ["@ + icon + "] "@ + s.name + " (version: "@ + ver + ") — "@ + s.detail
}

impl DependencyStatus {
    /// The report line of this status.
    pub fn to_string(&self) -> (s: String)
        ensures
            s@ == status_line(self@),
    {
        let icon = if self.found {
            "✓"
        } else if self.required {
            "✗"
        } else {
            "○"
        };
        let mut s = concat3("  [", icon, "] ");
        push_str(&mut s, self.name.as_str());
        push_str(&mut s, " (version: ");
        match &self.version {
            Some(v) => push_str(&mut s, v.as_str()),
            None => push_str(&mut s, "—"),
        }
        push_str(&mut s, ") — ");
        push_str(&mut s, self.detail.as_str());
        s
    }
}

/// A check to run on the system.
#[derive(Debug)]
pub enum DependencyProbe {
    /// Run `cmd` with `args`; found when it exits successfully.
    Command { cmd: String, args: Vec<String>, desc: String, required: bool },
    /// Look for the shared library `lib<name>`.
    Library { name: String, desc: String, required: bool },
    /// Read the environment variable `var`.
    EnvVar { var: String, desc: String, required: bool },
}

/// A probe taken as plain values.
pub enum ProbeView {
    Command { cmd: Seq<char>, args: Seq<Seq<char>>, desc: Seq<char>, required: bool },
    Library { name: Seq<char>, desc: Seq<char>, required: bool },
    EnvVar { var: Seq<char>, desc: Seq<char>, required: bool },
}

impl View for DependencyProbe {
    type V = ProbeView;

    open spec fn view(&self) -> ProbeView {
        match self {
            DependencyProbe::Command { cmd, args, desc, required } => ProbeView::Command {
                cmd: cmd@,
                args: string_views(args@),
                desc: desc@,
                required: *required,
            },
            DependencyProbe::Library { name, desc, required } => ProbeView::Library {
                name: name@,
                desc: desc@,
                required: *required,
            },
            DependencyProbe::EnvVar { var, desc, required } => ProbeView::EnvVar {
                var: var@,
                desc: desc@,
                required: *required,
            },
        }
    }
}

/// What running a probe gave.
#[derive(Debug)]
pub enum ProbeOutcome {
    /// The command ran and succeeded; its standard output.
    CommandSucceeded(String),
    /// The command ran and reported an error.
    CommandFailed,
    /// The command could not be started.
    CommandNotFound,
    /// Whether the library was found.
    LibraryProbed(bool),
    /// The variable's value, when set.
    EnvVarRead(Option<String>),
}

/// An outcome of the kind its probe produces.
pub open spec fn outcome_fits(p: ProbeView, o: ProbeOutcome) -> bool {
    match p {
        ProbeView::Command { .. } => o is CommandSucceeded || o is CommandFailed
            || o is CommandNotFound,
        ProbeView::Library { .. } => o is LibraryProbed,
        ProbeView::EnvVar { .. } => o is EnvVarRead,
    }
}

/// The first line of a command's output, trimmed; none for empty output.
pub open spec fn first_line(out: Seq<char>) -> Option<Seq<char>> {
    if out.len() == 0 {
        None
    } else {
        Some(trim(split_pieces(out, '\n')[0]))
    }
}

/// The status a probe's outcome reads as.
pub open spec fn status_for(p: ProbeView, o: ProbeOutcome) -> StatusView {
    match p {
        ProbeView::Command { cmd, desc, required, .. } => match o {
            ProbeOutcome::CommandSucceeded(out) => StatusView {
                name: desc,
                required,
                found: true,
                version: first_line(out@),
                detail: "`"@ + cmd + "` found in PATH"@,
            },
            ProbeOutcome::CommandFailed => StatusView {
                name: desc,
                required,
                found: false,
                version: None,
                detail: "`"@ + cmd + "` found but returned error"@,
            },
            _ => StatusView {
                name: desc,
                required,
                found: false,
                version: None,
                detail: "`"@ + cmd + "` not found in PATH"@,
            },
        },
        ProbeView::Library { name, desc, required } => {
            let found = o matches ProbeOutcome::LibraryProbed(f) && f;
            StatusView {
                name: desc,
                required,
                found,
                version: None,
                detail: if found {
                    "lib"@ + name + " found on system"@
                } else {
                    "lib"@ + name + " NOT found on system"@
                },
            }
        },
        ProbeView::EnvVar { var, desc, required } => match o {
            ProbeOutcome::EnvVarRead(Some(val)) => StatusView {
                name: desc,
                required,
                found: true,
                version: None,
                detail: "$"@ + var + " = "@ + val@,
            },
            _ => StatusView {
                name: desc,
                required,
                found: false,
                version: None,
                detail: "$"@ + var + " not set"@,
            },
        },
    }
}

/// The first line of `out`, trimmed; none when `out` is empty.
pub fn first_line_of(out: &str) -> (r: Option<String>)
    ensures
        opt_string_view(r) == first_line(out@),
{
    let v = chars_of(out);
    if v.len() == 0 {
        return None;
    }
    let ranges = split_ranges(&v, '\n');
    let (lo, hi) = ranges[0];
    assert(range_pieces(v@, ranges@)[0] == v@.subrange(lo as int, hi as int));
    Some(trimmed_range(&v, lo, hi))
}

/// Reads a probe's outcome as a status.
pub fn status_of(p: &DependencyProbe, o: &ProbeOutcome) -> (s: DependencyStatus)
    requires
        outcome_fits(p@, *o),
    ensures
        s@ == status_for(p@, *o),
{
    match p {
        DependencyProbe::Command { cmd, desc, required, .. } => match o {
            ProbeOutcome::CommandSucceeded(out) => DependencyStatus {
                name: desc.clone(),
                required: *required,
                found: true,
                version: first_line_of(out.as_str()),
                detail: concat3("`", cmd.as_str(), "` found in PATH"),
            },
            ProbeOutcome::CommandFailed => DependencyStatus {
                name: desc.clone(),
                required: *required,
                found: false,
                version: None,
                detail: concat3("`", cmd.as_str(), "` found but returned error"),
            },
            _ => DependencyStatus {
                name: desc.clone(),
                required: *required,
                found: false,
                version: None,
                detail: concat3("`", cmd.as_str(), "` not found in PATH"),
            },
        },
        DependencyProbe::Library { name, desc, required } => {
            let found = match o {
                ProbeOutcome::LibraryProbed(f) => *f,
                _ => false,
            };
            DependencyStatus {
                name: desc.clone(),
                required: *required,
                found,
                version: None,
                detail: if found {
                    concat3("lib", name.as_str(), " found on system")
                } else {
                    concat3("lib", name.as_str(), " NOT found on system")
                },
            }
        },
        DependencyProbe::EnvVar { var, desc, required } => match o {
            ProbeOutcome::EnvVarRead(Some(val)) => DependencyStatus {
                name: desc.clone(),
                required: *required,
                found: true,
                version: None,
                detail: concat4("$", var.as_str(), " = ", val.as_str()),
            },
            _ => DependencyStatus {
                name: desc.clone(),
                required: *required,
                found: false,
                version: None,
                detail: concat3("$", var.as_str(), " not set"),
            },
        },
    }
}


/// A command probe.
pub open spec fn command_check(
    cmd: Seq<char>,
    args: Seq<Seq<char>>,
    desc: Seq<char>,
    required: bool,
) -> ProbeView {
    ProbeView::Command { cmd, args, desc, required }
}

/// A library probe.
pub open spec fn library_check(name: Seq<char>, desc: Seq<char>, required: bool) -> ProbeView {
    ProbeView::Library { name, desc, required }
}

/// An environment-variable probe.
pub open spec fn env_check(var: Seq<char>, desc: Seq<char>, required: bool) -> ProbeView {
    ProbeView::EnvVar { var, desc, required }
}

/// Probes every platform runs: the Rust compiler (required) and the
/// Protocol Buffers compiler (optional).
pub open spec fn generic_plan() -> Seq<ProbeView> {
    seq![
        command_check("rustc"@, seq!["--version"@], "Rust compiler"@, true),
        command_check("protoc"@, seq!["--version"@], "Protocol Buffers compiler"@, false),
    ]
}

/// The platform-specific probes.
pub open spec fn vendor_plan(v: Vendor) -> Seq<ProbeView> {
    match v {
        Vendor::Nvidia => seq![
            command_check("nvidia-smi"@, Seq::empty(), "NVIDIA GPU driver"@, true),
            command_check("nvcc"@, seq!["--version"@], "CUDA Toolkit"@, true),
            command_check("trtexec"@, seq!["--help"@], "TensorRT CLI"@, false),
            library_check("cudart"@, "CUDA Runtime Library"@, true),
            library_check("nvinfer"@, "TensorRT Inference Library"@, true),
            library_check("nvinfer_plugin"@, "TensorRT Plugin Library"@, false),
        ],
        Vendor::Qualcomm => seq![
            env_check("SNPE_ROOT"@, "SNPE SDK root"@, false),
            env_check("QNN_SDK_ROOT"@, "QNN SDK root"@, false),
            library_check("QnnHtp"@, "QNN HTP Backend"@, false),
            library_check("QnnCpu"@, "QNN CPU Backend"@, false),
            library_check("SNPE"@, "SNPE Runtime"@, false),
            library_check("rpcmem"@, "RPCMem (Hexagon zero-copy)"@, false),
        ],
        Vendor::TexasInstruments => seq![
            env_check("TIDL_TOOLS_PATH"@, "TIDL Tools"@, false),
            env_check("EDGEAI_SDK_PATH"@, "TI Edge AI SDK"@, false),
            library_check("tidl_rt"@, "TIDL Runtime"@, true),
            library_check("cmem"@, "CMEM Allocator"@, false),
        ],
        _ => Seq::empty(),
    }
}

/// Every probe to run for a platform, in order.
pub open spec fn probe_plan(v: Vendor) -> Seq<ProbeView> {
    generic_plan() + vendor_plan(v)
}

/// The views of a list of probes.
pub open spec fn probe_views(v: Seq<DependencyProbe>) -> Seq<ProbeView> {
    v.map_values(|p: DependencyProbe| p@)
}

/// The views of a list of statuses.
pub open spec fn status_views(v: Seq<DependencyStatus>) -> Seq<StatusView> {
    v.map_values(|s: DependencyStatus| s@)
}

fn one_arg(a: &str) -> (r: Vec<String>)
    ensures
        string_views(r@) == seq![a@],
{
    let mut r: Vec<String> = Vec::new();
    r.push(String::from_str(a));
    assert(string_views(r@) =~= seq![a@]);
    r
}

fn no_args() -> (r: Vec<String>)
    ensures
        string_views(r@) == Seq::<Seq<char>>::empty(),
{
    let r: Vec<String> = Vec::new();
    assert(string_views(r@) =~= Seq::<Seq<char>>::empty());
    r
}

fn command(cmd: &str, args: Vec<String>, desc: &str, required: bool) -> (p: DependencyProbe)
    ensures
        p@ == command_check(cmd@, string_views(args@), desc@, required),
{
    DependencyProbe::Command {
        cmd: String::from_str(cmd),
        args,
        desc: String::from_str(desc),
        required,
    }
}

fn library(name: &str, desc: &str, required: bool) -> (p: DependencyProbe)
    ensures
        p@ == library_check(name@, desc@, required),
{
    DependencyProbe::Library {
        name: String::from_str(name),
        desc: String::from_str(desc),
        required,
    }
}

fn env_var(var: &str, desc: &str, required: bool) -> (p: DependencyProbe)
    ensures
        p@ == env_check(var@, desc@, required),
{
    DependencyProbe::EnvVar { var: String::from_str(var), desc: String::from_str(desc), required }
}

/// The probes to run for a platform: the generic ones, then the
/// platform's own.
pub fn dependency_probes(vendor: Vendor) -> (r: Vec<DependencyProbe>)
    ensures
        probe_views(r@) == probe_plan(vendor),
{
    let mut r: Vec<DependencyProbe> = Vec::new();
    r.push(command("rustc", one_arg("--version"), "Rust compiler", true));
    r.push(command("protoc", one_arg("--version"), "Protocol Buffers compiler", false));
    match vendor {
        Vendor::Nvidia => {
            r.push(command("nvidia-smi", no_args(), "NVIDIA GPU driver", true));
            r.push(command("nvcc", one_arg("--version"), "CUDA Toolkit", true));
            r.push(command("trtexec", one_arg("--help"), "TensorRT CLI", false));
            r.push(library("cudart", "CUDA Runtime Library", true));
            r.push(library("nvinfer", "TensorRT Inference Library", true));
            r.push(library("nvinfer_plugin", "TensorRT Plugin Library", false));
        },
        Vendor::Qualcomm => {
            r.push(env_var("SNPE_ROOT", "SNPE SDK root", false));
            r.push(env_var("QNN_SDK_ROOT", "QNN SDK root", false));
            r.push(library("QnnHtp", "QNN HTP Backend", false));
            r.push(library("QnnCpu", "QNN CPU Backend", false));
            r.push(library("SNPE", "SNPE Runtime", false));
            r.push(library("rpcmem", "RPCMem (Hexagon zero-copy)", false));
        },
        Vendor::TexasInstruments => {
            r.push(env_var("TIDL_TOOLS_PATH", "TIDL Tools", false));
            r.push(env_var("EDGEAI_SDK_PATH", "TI Edge AI SDK", false));
            r.push(library("tidl_rt", "TIDL Runtime", true));
            r.push(library("cmem", "CMEM Allocator", false));
        },
        _ => {},
    }
    assert(probe_views(r@) =~= probe_plan(vendor));
    r
}


/// The statuses the outcomes of a plan read as.
pub open spec fn statuses_for(plan: Seq<ProbeView>, outs: Seq<ProbeOutcome>) -> Seq<StatusView> {
    Seq::new(plan.len(), |i: int| status_for(plan[i], outs[i]))
}

/// A status name that refers to the SNPE or QNN SDK.
pub open spec fn names_sdk(name: Seq<char>) -> bool {
    has_infix(name, "QNN"@) || has_infix(name, "SNPE"@)
}

/// The Qualcomm summary status: found when some Qualcomm probe (those after
/// the two generic ones) that refers to SNPE or QNN was found.
pub open spec fn sdk_summary(st: Seq<StatusView>) -> StatusView {
    StatusView {
        name: "SNPE or QNN (at least one)"@,
        required: true,
        found: exists|i: int| 2 <= i < st.len() && #[trigger] st[i].found && names_sdk(st[i].name),
        version: None,
        detail: "Either SNPE or QNN SDK is needed for Qualcomm inference"@,
    }
}

/// Every status a check reports, in order.
pub open spec fn report_statuses(v: Vendor, outs: Seq<ProbeOutcome>) -> Seq<StatusView> {
    let st = statuses_for(probe_plan(v), outs);
    if v == Vendor::Qualcomm {
        st.push(sdk_summary(st))
    } else {
        st
    }
}

/// Names of the required statuses that were not found, in order.
pub open spec fn missing_names(st: Seq<StatusView>) -> Seq<Seq<char>>
    decreases st.len(),
{
    if st.len() == 0 {
        Seq::empty()
    } else {
        let r = missing_names(st.drop_last());
        if st.last().required && !st.last().found {
            r.push(st.last().name)
        } else {
            r
        }
    }
}

/// Every required dependency that was not found is named among the
/// missing ones.
pub proof fn lemma_missing_required_named(st: Seq<StatusView>, i: int)
    requires
        0 <= i < st.len(),
        st[i].required,
        !st[i].found,
    ensures
        missing_names(st).contains(st[i].name),
    decreases st.len(),
{
    let rest = missing_names(st.drop_last());
    if i == st.len() - 1 {
        assert(missing_names(st) == rest.push(st[i].name));
        assert(missing_names(st)[rest.len() as int] == st[i].name);
    } else {
        assert(st.drop_last()[i] == st[i]);
        lemma_missing_required_named(st.drop_last(), i);
        let k = choose|k: int| 0 <= k < rest.len() && rest[k] == st[i].name;
        if st.last().required && !st.last().found {
            assert(missing_names(st) == rest.push(st.last().name));
            assert(missing_names(st)[k] == rest[k]);
        }
    }
}

/// On an NVIDIA platform the TensorRT inference library `libnvinfer` is
/// probed, and is required: whenever it is not found, the check names
/// "TensorRT Inference Library" among the missing dependencies.
pub proof fn lemma_nvidia_requires_nvinfer(outs: Seq<ProbeOutcome>, i: int)
    requires
        outcomes_fit(Vendor::Nvidia, outs),
        0 <= i < outs.len(),
        probe_plan(Vendor::Nvidia)[i] matches ProbeView::Library { name, .. } && name
            == "nvinfer"@,
        outs[i] == ProbeOutcome::LibraryProbed(false),
    ensures
        probe_plan(Vendor::Nvidia).contains(
            library_check("nvinfer"@, "TensorRT Inference Library"@, true),
        ),
        missing_names(report_statuses(Vendor::Nvidia, outs)).contains(
            "TensorRT Inference Library"@,
        ),
{
    reveal_strlit("cudart");
    reveal_strlit("nvinfer");
    reveal_strlit("nvinfer_plugin");
    let plan = probe_plan(Vendor::Nvidia);
    assert(plan[6] == library_check("nvinfer"@, "TensorRT Inference Library"@, true));
    assert(plan[5] == library_check("cudart"@, "CUDA Runtime Library"@, true));
    assert(plan[7] == library_check("nvinfer_plugin"@, "TensorRT Plugin Library"@, false));
    assert("cudart"@.len() != "nvinfer"@.len());
    assert("nvinfer_plugin"@.len() != "nvinfer"@.len());
    assert(i == 6);
    let st = report_statuses(Vendor::Nvidia, outs);
    assert(st[6] == status_for(plan[6], outs[6]));
    lemma_missing_required_named(st, 6);
}

/// Outcomes that match the plan of a platform, one per probe.
pub open spec fn outcomes_fit(v: Vendor, outs: Seq<ProbeOutcome>) -> bool {
    outs.len() == probe_plan(v).len() && forall|i: int|
        0 <= i < outs.len() ==> outcome_fits(probe_plan(v)[i], #[trigger] outs[i])
}

fn statuses_of(probes: &Vec<DependencyProbe>, outcomes: &Vec<ProbeOutcome>) -> (r: Vec<
    DependencyStatus,
>)
    requires
        probes@.len() == outcomes@.len(),
        forall|i: int|
            0 <= i < outcomes@.len() ==> outcome_fits(probes@[i]@, #[trigger] outcomes@[i]),
    ensures
        status_views(r@) == statuses_for(probe_views(probes@), outcomes@),
{
    let ghost plan = probe_views(probes@);
    let mut statuses: Vec<DependencyStatus> = Vec::new();
    let mut i: usize = 0;
    while i < probes.len()
        invariant
            plan == probe_views(probes@),
            probes@.len() == outcomes@.len(),
            forall|i: int|
                0 <= i < outcomes@.len() ==> outcome_fits(probes@[i]@, #[trigger] outcomes@[i]),
            i <= probes@.len(),
            status_views(statuses@) == statuses_for(plan, outcomes@).take(i as int),
        decreases probes.len() - i,
    {
        let st = status_of(&probes[i], &outcomes[i]);
        let ghost before = statuses@;
        statuses.push(st);
        assert(status_views(statuses@) =~= status_views(before).push(st@));
        assert(status_views(statuses@) =~= statuses_for(plan, outcomes@).take(i + 1));
        i += 1;
    }
    assert(statuses_for(plan, outcomes@).take(plan.len() as int) =~= statuses_for(
        plan,
        outcomes@,
    ));
    statuses
}

fn sdk_found(statuses: &Vec<DependencyStatus>) -> (found: bool)
    ensures
        found == (exists|j: int|
            2 <= j < statuses@.len() && #[trigger] status_views(statuses@)[j].found && names_sdk(
                status_views(statuses@)[j].name,
            )),
{
    let ghost st = status_views(statuses@);
    let mut found = false;
    let mut k: usize = 2;
    while k < statuses.len()
        invariant
            st == status_views(statuses@),
            2 <= k,
            k <= statuses@.len() || statuses@.len() < 2,
            found == (exists|j: int|
                2 <= j < k && j < statuses@.len() && #[trigger] st[j].found && names_sdk(
                    st[j].name,
                )),
        decreases statuses.len() - k,
    {
        assert(st[k as int] == statuses@[k as int]@);
        let hit = statuses[k].found && (str_contains(statuses[k].name.as_str(), "QNN")
            || str_contains(statuses[k].name.as_str(), "SNPE"));
        proof {
            assert(hit == (st[k as int].found && names_sdk(st[k as int].name)));
            if found || hit {
                if hit {
                    assert(2 <= k < k + 1 && k < statuses@.len() && st[k as int].found);
                }
            } else {
                assert forall|j: int|
                    2 <= j < k + 1 && j < statuses@.len() implies !(#[trigger] st[j].found
                    && names_sdk(st[j].name)) by {
                    if j < k {
                    }
                }
            }
        }
        found = found || hit;
        k += 1;
    }
    found
}

fn missing_of(statuses: &Vec<DependencyStatus>) -> (missing: Vec<String>)
    ensures
        string_views(missing@) == missing_names(status_views(statuses@)),
{
    let ghost all = status_views(statuses@);
    let mut missing: Vec<String> = Vec::new();
    let mut j: usize = 0;
    while j < statuses.len()
        invariant
            all == status_views(statuses@),
            j <= statuses@.len(),
            string_views(missing@) == missing_names(all.take(j as int)),
        decreases statuses.len() - j,
    {
        assert(all.take(j + 1).drop_last() =~= all.take(j as int));
        assert(all.take(j + 1).last() == statuses@[j as int]@);
        if statuses[j].required && !statuses[j].found {
            let ghost before = missing@;
            missing.push(statuses[j].name.clone());
            assert(string_views(missing@) =~= string_views(before).push(
                statuses@[j as int]@.name,
            ));
        }
        j += 1;
    }
    assert(all.take(statuses@.len() as int) =~= all);
    missing
}

/// Turns the outcomes of `dependency_probes(vendor)` (one per probe, in
/// order) into statuses; for Qualcomm a summary status requires SNPE or
/// QNN. Fails, naming them, when any required dependency is missing.
pub fn check_dependencies(vendor: Vendor, outcomes: &Vec<ProbeOutcome>) -> (r: Result<
    Vec<DependencyStatus>,
    MiddlewareError,
>)
    requires
        outcomes_fit(vendor, outcomes@),
    ensures
        missing_names(report_statuses(vendor, outcomes@)).len() == 0 ==> (r matches Ok(v)
            && status_views(v@) == report_statuses(vendor, outcomes@)),
        missing_names(report_statuses(vendor, outcomes@)).len() > 0 ==> (r matches Err(e)
            && e@ == ErrorView::DependencyMissing(
            "Missing required dependencies: "@ + join(
                missing_names(report_statuses(vendor, outcomes@)),
                ", "@,
            ),
        )),
        forall|i: int|
            0 <= i < report_statuses(vendor, outcomes@).len() && (#[trigger] report_statuses(
                vendor,
                outcomes@,
            )[i]).required && !report_statuses(vendor, outcomes@)[i].found ==> r is Err,
{
    proof {
        let all = report_statuses(vendor, outcomes@);
        assert forall|i: int|
            0 <= i < all.len() && (#[trigger] all[i]).required && !all[i].found implies missing_names(
            all,
        ).len() > 0 by {
            lemma_missing_required_named(all, i);
        }
    }
    let probes = dependency_probes(vendor);
    proof {
        assert forall|i: int| 0 <= i < outcomes@.len() implies outcome_fits(
            probes@[i]@,
            #[trigger] outcomes@[i],
        ) by {
            assert(probe_views(probes@)[i] == probes@[i]@);
        }
    }
    let mut statuses = statuses_of(&probes, outcomes);
    let ghost st_all = status_views(statuses@);
    if vendor == Vendor::Qualcomm {
        let found = sdk_found(&statuses);
        let summary = DependencyStatus {
            name: String::from_str("SNPE or QNN (at least one)"),
            required: true,
            found,
            version: None,
            detail: String::from_str("Either SNPE or QNN SDK is needed for Qualcomm inference"),
        };
        assert(summary@ == sdk_summary(st_all));
        statuses.push(summary);
        assert(status_views(statuses@) =~= st_all.push(summary@));
    }
    let missing = missing_of(&statuses);
    if missing.len() > 0 {
        let names = join_strings(&missing, ", ");
        return Err(
            MiddlewareError::DependencyMissing(
                concat2("Missing required dependencies: ", names.as_str()),
            ),
        );
    }
    Ok(statuses)
}

} // verus!
