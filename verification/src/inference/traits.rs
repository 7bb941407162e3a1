//! Tensor descriptors and the interface every backend adapter implements.

use vstd::prelude::*;

use crate::utils::errors::{display_name, element_bytes, ErrorView, MiddlewareError, Precision};
use crate::utils::text::{decimal, join, push_decimal, push_str, string_views};

verus! {

/// The product of the dimensions in `s` (1 for no dimensions).
pub open spec fn shape_product(s: Seq<usize>) -> nat
    decreases s.len(),
{
    if s.len() == 0 {
        1
    } else {
        shape_product(s.drop_last()) * (s.last() as nat)
    }
}

/// The running product over every prefix of `s` fits in `usize` (taking
/// the product of a shape panics on overflow otherwise).
pub open spec fn product_fits(s: Seq<usize>) -> bool {
    forall|k: int| 0 <= k <= s.len() ==> #[trigger] shape_product(s.take(k)) <= usize::MAX
}

/// Number of elements a shape implies; an empty shape holds no elements.
pub open spec fn element_count(s: Seq<usize>) -> nat {
    if s.len() == 0 {
        0
    } else {
        shape_product(s)
    }
}

/// The product of the dimensions of `shape`.
pub fn shape_product_exec(shape: &Vec<usize>) -> (n: usize)
    requires
        product_fits(shape@),
    ensures
        n == shape_product(shape@),
{
    let mut acc: usize = 1;
    let mut i: usize = 0;
    assert(shape@.take(0) =~= Seq::<usize>::empty());
    while i < shape.len()
        invariant
            i <= shape@.len(),
            product_fits(shape@),
            acc == shape_product(shape@.take(i as int)),
        decreases shape.len() - i,
    {
        assert(shape@.take(i + 1).drop_last() =~= shape@.take(i as int));
        assert(shape@.take(i + 1).last() == shape@[i as int]);
        assert(shape_product(shape@.take(i + 1)) <= usize::MAX);
        acc = acc * shape[i];
        i += 1;
    }
    assert(shape@.take(shape@.len() as int) =~= shape@);
    acc
}

/// A copy of a vector of numbers.
pub fn copy_usizes(v: &Vec<usize>) -> (r: Vec<usize>)
    ensures
        r@ == v@,
{
    let mut r: Vec<usize> = Vec::new();
    let mut i: usize = 0;
    while i < v.len()
        invariant
            i <= v@.len(),
            r@ == v@.take(i as int),
        decreases v.len() - i,
    {
        r.push(v[i]);
        assert(r@ =~= v@.take(i + 1));
        i += 1;
    }
    assert(v@.take(v@.len() as int) =~= v@);
    r
}

/// A copy of a byte vector.
pub fn copy_bytes(v: &Vec<u8>) -> (r: Vec<u8>)
    ensures
        r@ == v@,
{
    let mut r: Vec<u8> = Vec::new();
    let mut i: usize = 0;
    while i < v.len()
        invariant
            i <= v@.len(),
            r@ == v@.take(i as int),
        decreases v.len() - i,
    {
        r.push(v[i]);
        assert(r@ =~= v@.take(i + 1));
        i += 1;
    }
    assert(v@.take(v@.len() as int) =~= v@);
    r
}

/// Debug rendering of a list of numbers, e.g. `[1, 3, 224, 224]`.
pub open spec fn list_text(s: Seq<usize>) -> Seq<char> {
    "["@ + join(s.map_values(|d: usize| decimal(d as nat)), ", "@) + "]"@
}

/// Renders a list of numbers the way `{:?}` does.
pub fn format_list(v: &Vec<usize>) -> (s: String)
    ensures
        s@ == list_text(v@),
{
    let mut parts: Vec<String> = Vec::new();
    let mut i: usize = 0;
    while i < v.len()
        invariant
            i <= v@.len(),
            parts@.len() == i,
            string_views(parts@) == v@.take(i as int).map_values(|d: usize| decimal(d as nat)),
        decreases v.len() - i,
    {
        let mut t = String::new();
        push_decimal(&mut t, v[i] as u64);
        assert(t@ =~= decimal(v@[i as int] as nat));
        let ghost before = parts@;
        parts.push(t);
        assert forall|j: int| 0 <= j < i + 1 implies #[trigger] string_views(parts@)[j] == v@.take(
            i + 1,
        ).map_values(|d: usize| decimal(d as nat))[j] by {
            if j < i {
                assert(string_views(before)[j] == v@.take(i as int).map_values(
                    |d: usize| decimal(d as nat),
                )[j]);
                assert(parts@[j] == before[j]);
            }
        }
        assert(string_views(parts@) =~= v@.take(i + 1).map_values(
            |d: usize| decimal(d as nat),
        ));
        i += 1;
    }
    assert(v@.take(v@.len() as int) =~= v@);
    let mut s = String::from_str("[");
    let inner = crate::utils::text::join_strings(&parts, ", ");
    s.append(inner.as_str());
    s.append("]");
    s
}

/// A tensor's name and shape.
#[derive(Debug)]
pub struct TensorSpec {
    pub name: String,
    pub shape: Vec<usize>,
}

/// A tensor descriptor taken as plain values.
pub struct TensorSpecView {
    pub name: Seq<char>,
    pub shape: Seq<usize>,
}

impl View for TensorSpec {
    type V = TensorSpecView;

    open spec fn view(&self) -> TensorSpecView {
        TensorSpecView { name: self.name@, shape: self.shape@ }
    }
}

impl Clone for TensorSpec {
    fn clone(&self) -> (c: TensorSpec)
        ensures
            c@ == self@,
    {
        TensorSpec { name: self.name.clone(), shape: copy_usizes(&self.shape) }
    }
}

/// The views of a list of tensor descriptors.
pub open spec fn spec_views(v: Seq<TensorSpec>) -> Seq<TensorSpecView> {
    v.map_values(|t: TensorSpec| t@)
}

/// A copy of a list of tensor descriptors.
pub fn copy_specs(v: &Vec<TensorSpec>) -> (r: Vec<TensorSpec>)
    ensures
        spec_views(r@) == spec_views(v@),
{
    let mut r: Vec<TensorSpec> = Vec::new();
    let mut i: usize = 0;
    while i < v.len()
        invariant
            i <= v@.len(),
            r@.len() == i,
            spec_views(r@) == spec_views(v@.take(i as int)),
        decreases v.len() - i,
    {
        let ghost before = r@;
        let c = v[i].clone();
        r.push(c);
        assert forall|j: int| 0 <= j < i + 1 implies #[trigger] spec_views(r@)[j] == spec_views(
            v@.take(i + 1),
        )[j] by {
            if j < i {
                assert(spec_views(before)[j] == spec_views(v@.take(i as int))[j]);
                assert(r@[j] == before[j]);
            }
        }
        assert(spec_views(r@) =~= spec_views(v@.take(i + 1)));
        i += 1;
    }
    assert(v@.take(v@.len() as int) =~= v@);
    r
}

/// An owned, contiguous, row-major tensor.
#[derive(Debug)]
pub struct TensorBuffer {
    pub name: String,
    /// Raw bytes of the tensor.
    pub data: Vec<u8>,
    /// Shape, e.g. `[1, 3, 224, 224]` for one RGB image.
    pub shape: Vec<usize>,
    /// Element precision.
    pub precision: Precision,
}

/// A tensor taken as plain values.
pub struct TensorBufferView {
    pub name: Seq<char>,
    pub data: Seq<u8>,
    pub shape: Seq<usize>,
    pub precision: Precision,
}

impl View for TensorBuffer {
    type V = TensorBufferView;

    open spec fn view(&self) -> TensorBufferView {
        TensorBufferView {
            name: self.name@,
            data: self.data@,
            shape: self.shape@,
            precision: self.precision,
        }
    }
}

impl Clone for TensorBuffer {
    fn clone(&self) -> (c: TensorBuffer)
        ensures
            c@ == self@,
    {
        TensorBuffer {
            name: self.name.clone(),
            data: copy_bytes(&self.data),
            shape: copy_usizes(&self.shape),
            precision: self.precision,
        }
    }
}

/// The byte count a tensor's shape and precision call for.
pub open spec fn expected_bytes(t: TensorBufferView) -> nat {
    element_count(t.shape) * element_bytes(t.precision)
}

/// The byte count fits in `usize` on the way (no step of the computation
/// overflows).
pub open spec fn size_computable(t: TensorBufferView) -> bool {
    product_fits(t.shape) && expected_bytes(t) <= usize::MAX
}

/// The error `validate` reports for a tensor whose byte count is wrong.
pub open spec fn size_mismatch(t: TensorBufferView) -> ErrorView {
    ErrorView::InferenceFailed(
        "Tensor size mismatch: data has "@ + decimal(t.data.len()) + " bytes but shape "@
            + list_text(t.shape) + " × "@ + display_name(t.precision) + " expects "@ + decimal(
            expected_bytes(t),
        ) + " bytes"@,
    )
}

impl TensorBuffer {
    /// Number of elements implied by the shape (0 for an empty shape).
    pub fn num_elements(&self) -> (n: usize)
        requires
            product_fits(self.shape@),
        ensures
            n == element_count(self.shape@),
    {
        if self.shape.len() == 0 {
            return 0;
        }
        shape_product_exec(&self.shape)
    }

    /// Size of one element in bytes for the tensor's precision.
    pub fn element_size(&self) -> (n: usize)
        ensures
            n == element_bytes(self.precision),
    {
        self.precision.element_size()
    }

    /// Expected total byte count: elements × element size.
    pub fn byte_size(&self) -> (n: usize)
        requires
            size_computable(self@),
        ensures
            n == expected_bytes(self@),
    {
        self.num_elements() * self.element_size()
    }

    /// Checks that the data holds exactly shape × element-size bytes.
    pub fn validate(&self) -> (r: Result<(), MiddlewareError>)
        requires
            size_computable(self@),
        ensures
            r is Ok <==> self.data@.len() == expected_bytes(self@),
            r matches Err(e) ==> e@ == size_mismatch(self@),
    {
        let expected = self.byte_size();
        if self.data.len() != expected {
            let mut m = String::from_str("Tensor size mismatch: data has ");
            push_decimal(&mut m, self.data.len() as u64);
            push_str(&mut m, " bytes but shape ");
            let shape_text = format_list(&self.shape);
            push_str(&mut m, shape_text.as_str());
            push_str(&mut m, " × ");
            push_str(&mut m, self.precision.display_str());
            push_str(&mut m, " expects ");
            push_decimal(&mut m, expected as u64);
            push_str(&mut m, " bytes");
            return Err(MiddlewareError::InferenceFailed(m));
        }
        Ok(())
    }

    /// Checks that the data can be read as little-endian `f32` values: the
    /// precision must be FP32 and the byte count a multiple of 4.
    pub fn check_f32_layout(&self) -> (r: Result<(), MiddlewareError>)
        ensures
            r is Ok <==> (self.precision == Precision::FP32 && self.data@.len() % 4 == 0),
            self.precision != Precision::FP32 ==> (r matches Err(e) && e@
                == ErrorView::PostprocessingFailed(
                "Expected FP32 tensor, got "@ + display_name(self.precision),
            )),
            self.precision == Precision::FP32 && self.data@.len() % 4 != 0 ==> (r matches Err(e)
                && e@ == ErrorView::PostprocessingFailed(
                "Byte length "@ + decimal(self.data@.len()) + " is not a multiple of 4"@,
            )),
    {
        if self.precision != Precision::FP32 {
            return Err(
                MiddlewareError::PostprocessingFailed(
                    crate::utils::text::concat2(
                        "Expected FP32 tensor, got ",
                        self.precision.display_str(),
                    ),
                ),
            );
        }
        if self.data.len() % 4 != 0 {
            let mut m = String::from_str("Byte length ");
            push_decimal(&mut m, self.data.len() as u64);
            push_str(&mut m, " is not a multiple of 4");
            return Err(MiddlewareError::PostprocessingFailed(m));
        }
        Ok(())
    }
}

/// Metadata describing a loaded engine.
#[derive(Debug)]
pub struct EngineInfo {
    /// Engine name or file stem.
    pub name: String,
    /// Precision the engine was compiled for.
    pub precision: Precision,
    pub inputs: Vec<TensorSpec>,
    pub outputs: Vec<TensorSpec>,
    /// Estimated accelerator memory use in bytes.
    pub memory_bytes: u64,
}

/// Engine metadata taken as plain values.
pub struct EngineInfoView {
    pub name: Seq<char>,
    pub precision: Precision,
    pub inputs: Seq<TensorSpecView>,
    pub outputs: Seq<TensorSpecView>,
    pub memory_bytes: u64,
}

impl View for EngineInfo {
    type V = EngineInfoView;

    open spec fn view(&self) -> EngineInfoView {
        EngineInfoView {
            name: self.name@,
            precision: self.precision,
            inputs: spec_views(self.inputs@),
            outputs: spec_views(self.outputs@),
            memory_bytes: self.memory_bytes,
        }
    }
}

impl Clone for EngineInfo {
    fn clone(&self) -> (c: EngineInfo)
        ensures
            c@ == self@,
    {
        EngineInfo {
            name: self.name.clone(),
            precision: self.precision,
            inputs: copy_specs(&self.inputs),
            outputs: copy_specs(&self.outputs),
            memory_bytes: self.memory_bytes,
        }
    }
}

/// The view of an optional engine description.
pub open spec fn info_view(o: Option<EngineInfo>) -> Option<EngineInfoView> {
    match o {
        Some(i) => Some(i@),
        None => None,
    }
}

/// The interface every backend adapter implements.
///
/// Lifecycle: `load_engine`, then `allocate_buffers`, then `infer` any
/// number of times, then `release`.
pub trait InferenceBackend {
    /// Whether an engine is loaded and its buffers allocated.
    spec fn ready(&self) -> bool;

    /// The loaded engine, if any.
    spec fn loaded(&self) -> Option<EngineInfoView>;

    /// Backend identifier (e.g. `"nvidia"`).
    fn backend_name(&self) -> &'static str;

    /// Loads a precompiled engine; `file_exists` tells whether `path`
    /// names an existing file.
    fn load_engine(&mut self, path: &str, file_exists: bool) -> (r: Result<
        EngineInfo,
        MiddlewareError,
    >)
        ensures
            r matches Ok(info) ==> final(self).loaded() == Some(info@),
            r is Err ==> final(self).ready() == old(self).ready(),
    ;

    /// Pre-allocates the engine's buffers.
    fn allocate_buffers(&mut self) -> (r: Result<(), MiddlewareError>)
        ensures
            final(self).loaded() == old(self).loaded(),
            r is Ok && old(self).loaded() is Some ==> final(self).ready(),
    ;

    /// Runs one forward pass; every output element receives the
    /// little-endian `f32` score `uniform_score` on simulated backends.
    fn infer(&self, inputs: &[TensorBuffer], uniform_score: [u8; 4]) -> (r: Result<
        Vec<TensorBuffer>,
        MiddlewareError,
    >)
        requires
            inputs@.len() > 0 ==> size_computable(inputs@[0]@),
        ensures
            r is Ok ==> self.ready(),
    ;

    /// Releases every resource.
    fn release(&mut self) -> (r: Result<(), MiddlewareError>)
        ensures
            r is Ok,
            !final(self).ready(),
            final(self).loaded() is None,
    ;

    /// The loaded engine's metadata, if any.
    fn engine_info(&self) -> (r: Option<EngineInfo>)
        ensures
            info_view(r) == self.loaded(),
    ;

    /// Whether an engine is loaded and buffers are allocated.
    fn is_ready(&self) -> (b: bool)
        ensures
            b == self.ready(),
    ;
}

} // verus!
