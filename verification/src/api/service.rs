//! Request handling of the network inference service and its edge client:
//! request numbering, tensor data-type names, shape conversion to and from
//! the wire, health fields and the client's reconnection and label rules.

use vstd::prelude::*;

use crate::lifecycle::state_manager::{state_name, State};
use crate::api::public_api::Middleware;
use crate::inference::traits::{copy_bytes, TensorBuffer};
use crate::utils::errors::{display_name, MiddlewareError, Precision};
use crate::utils::text::{
    chars_of, concat2, push_text, range_pieces, split_pieces, split_ranges, string_views, trim,
    trimmed_range,
};

verus! {

/// Hands out request identifiers 1, 2, 3, ...
pub struct RequestCounter {
    next: u64,
}

impl RequestCounter {
    /// The identifier the next request gets.
    pub closed spec fn upcoming(&self) -> u64 {
        self.next
    }

    /// A counter whose first identifier is 1.
    pub fn new() -> (c: RequestCounter)
        ensures
            c.upcoming() == 1,
    {
        RequestCounter { next: 1 }
    }

    /// The next request identifier; the counter wraps around after
    /// `u64::MAX`.
    pub fn next_request_id(&mut self) -> (id: u64)
        ensures
            id == old(self).upcoming(),
            final(self).upcoming() == (if old(self).upcoming() == u64::MAX {
                0
            } else {
                old(self).upcoming() + 1
            }),
    {
        let id = self.next;
        self.next = self.next.wrapping_add(1);
        id
    }
}

/// The precision a wire data-type name denotes; unknown names mean FP32.
pub open spec fn datatype_precision(s: Seq<char>) -> Precision {
    if s == "FP16"@ {
        Precision::FP16
    } else if s == "INT8"@ {
        Precision::INT8
    } else if s == "FP8"@ {
        Precision::FP8
    } else {
        Precision::FP32
    }
}

/// The precision a wire data-type name denotes (`"FP32"`, `"FP16"`,
/// `"INT8"`, `"FP8"`); any other name means FP32.
pub fn precision_from_datatype(s: &str) -> (p: Precision)
    ensures
        p == datatype_precision(s@),
{
    if crate::utils::text::str_eq(s, "FP16") {
        Precision::FP16
    } else if crate::utils::text::str_eq(s, "INT8") {
        Precision::INT8
    } else if crate::utils::text::str_eq(s, "FP8") {
        Precision::FP8
    } else {
        Precision::FP32
    }
}

/// Tensor dimensions from the wire (each `i64` taken as `usize`, as the
/// `as` cast does).
pub fn dims_from_wire(shape: &Vec<i64>) -> (r: Vec<usize>)
    ensures
        r@.len() == shape@.len(),
        forall|i: int| 0 <= i < shape@.len() ==> r@[i] == #[trigger] shape@[i] as usize,
{
    let mut r: Vec<usize> = Vec::new();
    let mut i: usize = 0;
    while i < shape.len()
        invariant
            i <= shape@.len(),
            r@.len() == i,
            forall|k: int| 0 <= k < i ==> r@[k] == #[trigger] shape@[k] as usize,
        decreases shape.len() - i,
    {
        r.push(shape[i] as usize);
        i += 1;
    }
    r
}

/// Tensor dimensions for the wire (each `usize` taken as `i64`, as the
/// `as` cast does).
pub fn dims_to_wire(shape: &Vec<usize>) -> (r: Vec<i64>)
    ensures
        r@.len() == shape@.len(),
        forall|i: int| 0 <= i < shape@.len() ==> r@[i] == #[trigger] shape@[i] as i64,
{
    let mut r: Vec<i64> = Vec::new();
    let mut i: usize = 0;
    while i < shape.len()
        invariant
            i <= shape@.len(),
            r@.len() == i,
            forall|k: int| 0 <= k < i ==> r@[k] == #[trigger] shape@[k] as i64,
        decreases shape.len() - i,
    {
        r.push(shape[i] as i64);
        i += 1;
    }
    r
}

/// A request must carry at least one input.
pub fn check_request_inputs(num_inputs: usize) -> (r: Result<(), String>)
    ensures
        r is Ok <==> num_inputs > 0,
        r matches Err(m) ==> m@ == "inputs is empty"@,
{
    if num_inputs == 0 {
        Err(String::from_str("inputs is empty"))
    } else {
        Ok(())
    }
}

/// The status message of a failed inference.
pub fn inference_failure_message(e: &MiddlewareError) -> (s: String)
    ensures
        s@ == "Inference failed: "@ + e@.message(),
{
    let m = e.to_string();
    concat2("Inference failed: ", m.as_str())
}

/// Whether the health check reports ready.
pub fn health_ready(state: State) -> (b: bool)
    ensures
        b == (state == State::Ready),
{
    state == State::Ready
}

/// The state name reported by the health check.
pub fn health_state(state: State) -> (s: String)
    ensures
        s@ == state_name(state),
{
    state.to_string()
}

/// Whether the client stops reconnecting after `attempts` failed
/// connections (`max_reconnects` 0 means never).
pub fn give_up_reconnecting(attempts: usize, max_reconnects: usize) -> (b: bool)
    ensures
        b == (max_reconnects > 0 && attempts >= max_reconnects),
{
    max_reconnects > 0 && attempts >= max_reconnects
}

/// The lines of a text (split at `\n`; a final line break ends the last
/// line rather than starting an empty one).
pub open spec fn text_lines(text: Seq<char>) -> Seq<Seq<char>> {
    let ps = split_pieces(text, '\n');
    if ps.last().len() == 0 {
        ps.drop_last()
    } else {
        ps
    }
}

/// Every element of `ps` trimmed.
pub open spec fn trimmed_all(ps: Seq<Seq<char>>) -> Seq<Seq<char>> {
    ps.map_values(|p: Seq<char>| trim(p))
}

/// The client's labels: every line of the text, trimmed (blank lines
/// kept, so line numbers stay class indices).
pub fn label_lines(text: &str) -> (r: Vec<String>)
    ensures
        string_views(r@) == trimmed_all(text_lines(text@)),
{
    let v = chars_of(text);
    let ranges = split_ranges(&v, '\n');
    let ghost ps = range_pieces(v@, ranges@);
    proof {
        crate::utils::text::lemma_split_pieces_nonempty(text@, '\n');
    }
    let n = ranges.len();
    let (last_lo, last_hi) = ranges[n - 1];
    let count = if last_lo == last_hi {
        n - 1
    } else {
        n
    };
    let mut out: Vec<String> = Vec::new();
    let mut k: usize = 0;
    while k < count
        invariant
            0 <= k <= count <= ranges@.len(),
            ps == range_pieces(v@, ranges@),
            forall|j: int| 0 <= j < ranges@.len() ==> ranges@[j].0 <= #[trigger] ranges@[j].1
                <= v@.len(),
            string_views(out@) == trimmed_all(ps.take(k as int)),
        decreases count - k,
    {
        let (lo, hi) = ranges[k];
        let t = trimmed_range(&v, lo, hi);
        assert(ps[k as int] == v@.subrange(lo as int, hi as int));
        push_text(&mut out, t);
        assert(trimmed_all(ps.take(k + 1)) =~= trimmed_all(ps.take(k as int)).push(trim(ps[k as int])));
        k += 1;
    }
    proof {
        assert(ps == split_pieces(text@, '\n'));
        if last_lo == last_hi {
            assert(ps.last().len() == 0);
            assert(ps.take(count as int) =~= ps.drop_last());
        } else {
            assert(ps.last().len() != 0);
            assert(ps.take(count as int) =~= ps);
        }
    }
    out
}

/// The label of class `idx`, or `"unknown"`.
pub fn label_or_unknown(labels: &Vec<String>, idx: usize) -> (s: String)
    ensures
        s@ == (if idx < labels@.len() {
            labels@[idx as int]@
        } else {
            "unknown"@
        }),
{
    if idx < labels.len() {
        labels[idx].clone()
    } else {
        String::from_str("unknown")
    }
}

/// A tensor as it travels on the wire: data-type name and `i64` shape.
#[derive(Debug)]
pub struct WireTensor {
    pub name: String,
    pub datatype: String,
    pub shape: Vec<i64>,
    pub raw_data: Vec<u8>,
}

/// A request input as a tensor buffer: the data type picks the precision
/// (unknown names mean FP32) and each dimension is taken as `usize`.
pub fn tensor_from_wire(t: &WireTensor) -> (b: TensorBuffer)
    ensures
        b.name@ == t.name@,
        b.data@ == t.raw_data@,
        b.precision == datatype_precision(t.datatype@),
        b.shape@.len() == t.shape@.len(),
        forall|i: int| 0 <= i < t.shape@.len() ==> b.shape@[i] == #[trigger] t.shape@[i] as usize,
{
    TensorBuffer {
        name: t.name.clone(),
        data: copy_bytes(&t.raw_data),
        shape: dims_from_wire(&t.shape),
        precision: precision_from_datatype(t.datatype.as_str()),
    }
}

/// An output tensor for the wire: the precision's display name as data
/// type and each dimension taken as `i64`.
pub fn tensor_to_wire(b: &TensorBuffer) -> (t: WireTensor)
    ensures
        t.name@ == b.name@,
        t.raw_data@ == b.data@,
        t.datatype@ == display_name(b.precision),
        t.shape@.len() == b.shape@.len(),
        forall|i: int| 0 <= i < b.shape@.len() ==> t.shape@[i] == #[trigger] b.shape@[i] as i64,
{
    WireTensor {
        name: b.name.clone(),
        datatype: String::from_str(b.precision.display_str()),
        shape: dims_to_wire(&b.shape),
        raw_data: copy_bytes(&b.data),
    }
}

/// What the health check reports.
#[derive(Debug)]
pub struct HealthReport {
    /// Whether the middleware is `Ready`.
    pub ready: bool,
    /// The lifecycle state's name.
    pub state: String,
    /// The backend's name (`"none"` before initialization).
    pub backend: String,
    /// The loaded engine's name (empty when none).
    pub model_name: String,
    /// Inferences served (not counted in this build).
    pub inference_count: u64,
}

/// The health report of a middleware.
pub fn health_report(m: &Middleware) -> (h: HealthReport)
    ensures
        h.ready == (m.state_of() == State::Ready),
        h.state@ == state_name(m.state_of()),
        h.backend@ == (if m.has_manager() {
            "cpu"@
        } else {
            "none"@
        }),
        h.model_name@ == match m.loaded_engine() {
            Some(e) => e.name,
            None => Seq::<char>::empty(),
        },
        h.inference_count == 0,
{
    let state = m.state();
    let model_name = match m.engine_info() {
        Some(e) => e.name,
        None => String::new(),
    };
    HealthReport {
        ready: health_ready(state),
        state: health_state(state),
        backend: m.backend_name(),
        model_name,
        inference_count: 0,
    }
}

} // verus!
