//! Pre-allocated host-side input/output tensors, sized from an engine's
//! metadata.

use vstd::prelude::*;

use crate::inference::traits::{
    expected_bytes, product_fits, shape_product, shape_product_exec, copy_usizes, EngineInfo,
    TensorBuffer, TensorBufferView, TensorSpec, TensorSpecView,
};
use crate::utils::errors::{element_bytes, MiddlewareError, Precision};

verus! {

/// `n` zero bytes.
pub open spec fn zero_bytes(n: nat) -> Seq<u8> {
    Seq::new(n, |i: int| 0u8)
}

/// A vector of `n` zero bytes.
pub fn zeroed(n: usize) -> (v: Vec<u8>)
    ensures
        v@ == zero_bytes(n as nat),
{
    let mut v: Vec<u8> = Vec::new();
    let mut i: usize = 0;
    while i < n
        invariant
            i <= n,
            v@ == zero_bytes(i as nat),
        decreases n - i,
    {
        v.push(0u8);
        assert(v@ =~= zero_bytes((i + 1) as nat));
        i += 1;
    }
    v
}

/// The zero-filled buffer allocated for a tensor descriptor: one element
/// per entry of the shape's product (1 for an empty shape).
pub open spec fn allocated_buffer(spec: TensorSpecView, p: Precision) -> TensorBufferView {
    TensorBufferView {
        name: spec.name,
        data: zero_bytes(shape_product(spec.shape) * element_bytes(p)),
        shape: spec.shape,
        precision: p,
    }
}

/// A descriptor whose buffer size can be computed without overflow.
pub open spec fn allocatable(spec: TensorSpecView, p: Precision) -> bool {
    product_fits(spec.shape) && shape_product(spec.shape) * element_bytes(p) <= usize::MAX
}

/// The view of an optional buffer.
pub open spec fn buffer_view(o: Option<TensorBuffer>) -> Option<TensorBufferView> {
    match o {
        Some(b) => Some(b@),
        None => None,
    }
}

/// Mutable access to the contents of an optional slot.
fn slot_mut(o: &mut Option<TensorBuffer>) -> (r: Option<&mut TensorBuffer>)
    ensures
        r is Some <==> *old(o) is Some,
        r matches Some(b) ==> *old(o) == Some(*b) && *final(o) == Some(*final(b)),
        r is None ==> *final(o) is None,
    no_unwind
{
    match o {
        Some(b) => Some(b),
        None => None,
    }
}

/// Manages pre-allocated input/output buffers.
#[derive(Debug)]
pub struct BufferManager {
    input_buffer: Option<TensorBuffer>,
    output_buffer: Option<TensorBuffer>,
}

fn buffer_for(spec: &TensorSpec, p: Precision) -> (b: TensorBuffer)
    requires
        allocatable(spec@, p),
    ensures
        b@ == allocated_buffer(spec@, p),
{
    let elems = shape_product_exec(&spec.shape);
    let n = elems * p.element_size();
    TensorBuffer {
        name: spec.name.clone(),
        data: zeroed(n),
        shape: copy_usizes(&spec.shape),
        precision: p,
    }
}

impl BufferManager {
    /// The input and output buffers exist together: both allocated or
    /// both absent.
    #[verifier::type_invariant]
    spec fn buffers_paired(self) -> bool {
        self.input_buffer is Some <==> self.output_buffer is Some
    }

    /// The pre-allocated input buffer, if any.
    pub closed spec fn input_slot(&self) -> Option<TensorBuffer> {
        self.input_buffer
    }

    /// The pre-allocated output buffer, if any.
    pub closed spec fn output_slot(&self) -> Option<TensorBuffer> {
        self.output_buffer
    }

    /// A manager with no buffers.
    pub fn new() -> (m: BufferManager)
        ensures
            m.input_slot() is None,
            m.output_slot() is None,
    {
        BufferManager { input_buffer: None, output_buffer: None }
    }

    /// Allocates zeroed buffers for the engine's first input and first
    /// output, at the engine's precision.
    pub fn allocate(&mut self, info: &EngineInfo) -> (r: Result<(), MiddlewareError>)
        requires
            info.inputs@.len() >= 1,
            info.outputs@.len() >= 1,
            allocatable(info.inputs@[0]@, info.precision),
            allocatable(info.outputs@[0]@, info.precision),
        ensures
            r is Ok,
            buffer_view(final(self).input_slot()) == Some(
                allocated_buffer(info.inputs@[0]@, info.precision),
            ),
            buffer_view(final(self).output_slot()) == Some(
                allocated_buffer(info.outputs@[0]@, info.precision),
            ),
    {
        let input = buffer_for(&info.inputs[0], info.precision);
        let output = buffer_for(&info.outputs[0], info.precision);
        *self = BufferManager { input_buffer: Some(input), output_buffer: Some(output) };
        Ok(())
    }

    /// Mutable access to the input buffer, if allocated.
    pub fn input_buffer_mut(&mut self) -> (r: Option<&mut TensorBuffer>)
        ensures
            r is Some <==> old(self).input_slot() is Some,
            r matches Some(b) ==> old(self).input_slot() == Some(*b) && final(self).input_slot()
                == Some(*final(b)),
            r is None ==> final(self).input_slot() is None,
            final(self).output_slot() == old(self).output_slot(),
            r is Some <==> old(self).output_slot() is Some,
    {
        proof {
            use_type_invariant(&*self);
        }
        slot_mut(&mut self.input_buffer)
    }

    /// The output buffer, if allocated.
    pub fn output_buffer(&self) -> (r: Option<&TensorBuffer>)
        ensures
            match r {
                Some(b) => self.output_slot() == Some(*b),
                None => self.output_slot() is None,
            },
            r is Some <==> self.input_slot() is Some,
    {
        proof {
            use_type_invariant(self);
        }
        self.output_buffer.as_ref()
    }

    /// Drops both buffers.
    pub fn release(&mut self)
        ensures
            final(self).input_slot() is None,
            final(self).output_slot() is None,
    {
        *self = BufferManager { input_buffer: None, output_buffer: None };
    }

    /// Whether both buffers are allocated.
    pub fn is_allocated(&self) -> (b: bool)
        ensures
            b == (self.input_slot() is Some && self.output_slot() is Some),
            b == (self.input_slot() is Some),
            b == (self.output_slot() is Some),
    {
        proof {
            use_type_invariant(self);
        }
        self.input_buffer.is_some() && self.output_buffer.is_some()
    }
}

impl Default for BufferManager {
    fn default() -> (m: BufferManager)
        ensures
            m.input_slot() is None,
            m.output_slot() is None,
    {
        BufferManager::new()
    }
}

/// A buffer allocated for a descriptor with at least one dimension holds
/// exactly the bytes that tensor validation expects of it.
pub proof fn lemma_allocated_buffer_is_valid(spec: TensorSpecView, p: Precision)
    requires
        spec.shape.len() > 0,
    ensures
        allocated_buffer(spec, p).data.len() == expected_bytes(allocated_buffer(spec, p)),
{
}

} // verus!
