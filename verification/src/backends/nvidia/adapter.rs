//! NVIDIA TensorRT backend for Orin / Thor. Its engine and inference pass
//! are simulated: the engine is described from the file name and the pass
//! returns uniform scores.

use vstd::prelude::*;

use crate::backends::simulated::{
    load_view, outputs_view, sim_info, sim_output, simulated_engine_info, stem_or,
    stem_or_else, uniform_output, uniform_scores, buffer_views,
};
use crate::inference::traits::{
    shape_product_exec, info_view, EngineInfo, EngineInfoView, InferenceBackend, TensorBuffer, TensorBufferView,
};
use crate::utils::errors::{ErrorView, MiddlewareError, Precision};
use crate::utils::text::{concat2, decimal, push_decimal, push_str};

verus! {

/// NVIDIA hardware generation.
#[derive(Debug, Clone, Copy, PartialEq, Eq, Structural)]
pub enum NvidiaHardware {
    /// Orin (Ampere): up to FP16.
    Orin,
    /// Thor: up to FP8.
    Thor,
}

/// NVIDIA TensorRT backend adapter.
pub struct NvidiaAdapter {
    hardware: NvidiaHardware,
    engine_info: Option<EngineInfo>,
    buffers_allocated: bool,
}

/// Bytes a simulated engine expects as input: 1×3×224×224 FP32 values.
pub open spec fn sim_input_bytes() -> nat {
    602112
}

/// What an NVIDIA load of `path` gives.
pub open spec fn nvidia_load(path: Seq<char>, file_exists: bool) -> Result<
    EngineInfoView,
    ErrorView,
> {
    if file_exists {
        Ok(sim_info(stem_or(path, "simulated_engine"@), 52428800u64))
    } else {
        Err(ErrorView::EngineLoadFailed("Engine file not found: "@ + path))
    }
}

/// What an NVIDIA inference pass gives: the input must hold the engine's
/// input size in the engine's precision or in FP32 (both 602112 bytes for
/// the simulated FP32 engine).
pub open spec fn nvidia_infer(
    loaded: Option<EngineInfoView>,
    allocated: bool,
    inputs: Seq<TensorBufferView>,
    score: Seq<u8>,
) -> Result<Seq<TensorBufferView>, ErrorView> {
    if loaded is None {
        Err(ErrorView::EngineNotLoaded)
    } else if !allocated {
        Err(ErrorView::InferenceFailed("Buffers not allocated — call allocate_buffers() first"@))
    } else if inputs.len() == 0 {
        Err(ErrorView::InferenceFailed("No inputs provided"@))
    } else if inputs[0].data.len() != sim_input_bytes() {
        Err(
            ErrorView::InferenceFailed(
                "Input tensor size mismatch: got "@ + decimal(inputs[0].data.len())
                    + " bytes, expected "@ + decimal(sim_input_bytes()) + " or "@ + decimal(
                    sim_input_bytes(),
                ) + " bytes"@,
            ),
        )
    } else {
        Ok(seq![uniform_output(sim_output(), score)])
    }
}

/// The precision ceiling of a hardware generation.
pub open spec fn max_precision_of(h: NvidiaHardware) -> Precision {
    match h {
        NvidiaHardware::Thor => Precision::FP8,
        NvidiaHardware::Orin => Precision::FP16,
    }
}

impl NvidiaAdapter {
    #[verifier::type_invariant]
    spec fn reports_simulated_engine(self) -> bool {
        match self.engine_info {
            Some(i) => i@ == sim_info(i@.name, 52428800u64),
            None => true,
        }
    }

    /// Whether buffers have been allocated.
    pub closed spec fn allocated(&self) -> bool {
        self.buffers_allocated
    }

    /// The hardware generation this adapter targets.
    pub closed spec fn generation(&self) -> NvidiaHardware {
        self.hardware
    }

    /// An adapter for `hardware` with no engine loaded.
    pub fn new(hardware: NvidiaHardware) -> (a: NvidiaAdapter)
        ensures
            a.generation() == hardware,
            a.loaded() is None,
            !a.allocated(),
    {
        NvidiaAdapter { hardware, engine_info: None, buffers_allocated: false }
    }

    /// The hardware generation this adapter targets.
    pub fn hardware(&self) -> (h: NvidiaHardware)
        ensures
            h == self.generation(),
    {
        self.hardware
    }

    /// Maximum precision the hardware supports: FP8 on Thor, FP16 on Orin.
    pub fn max_precision(&self) -> (p: Precision)
        ensures
            p == max_precision_of(self.generation()),
    {
        match self.hardware {
            NvidiaHardware::Thor => Precision::FP8,
            NvidiaHardware::Orin => Precision::FP16,
        }
    }
}

impl Default for NvidiaAdapter {
    fn default() -> (a: NvidiaAdapter)
        ensures
            a.generation() == NvidiaHardware::Orin,
            a.loaded() is None,
            !a.allocated(),
    {
        NvidiaAdapter::new(NvidiaHardware::Orin)
    }
}

impl InferenceBackend for NvidiaAdapter {
    open spec fn ready(&self) -> bool {
        self.loaded() is Some && self.allocated()
    }

    closed spec fn loaded(&self) -> Option<EngineInfoView> {
        info_view(self.engine_info)
    }

    fn backend_name(&self) -> (s: &'static str)
        ensures
            s@ == "nvidia"@,
    {
        "nvidia"
    }

    fn load_engine(&mut self, path: &str, file_exists: bool) -> (r: Result<
        EngineInfo,
        MiddlewareError,
    >)
        ensures
            load_view(r) == nvidia_load(path@, file_exists),
            r is Err ==> final(self).loaded() == old(self).loaded(),
            final(self).allocated() == old(self).allocated(),
            final(self).generation() == old(self).generation(),
    {
        if !file_exists {
            return Err(MiddlewareError::EngineLoadFailed(concat2("Engine file not found: ", path)));
        }
        let name = stem_or_else(path, "simulated_engine");
        let info = simulated_engine_info(name, 50 * 1024 * 1024);
        self.engine_info = Some(info.clone());
        Ok(info)
    }

    fn allocate_buffers(&mut self) -> (r: Result<(), MiddlewareError>)
        ensures
            r is Ok,
            final(self).allocated(),
            final(self).generation() == old(self).generation(),
    {
        proof {
            use_type_invariant(&*self);
        }
        self.buffers_allocated = true;
        Ok(())
    }

    fn infer(&self, inputs: &[TensorBuffer], uniform_score: [u8; 4]) -> (r: Result<
        Vec<TensorBuffer>,
        MiddlewareError,
    >)
        ensures
            outputs_view(r) == nvidia_infer(
                self.loaded(),
                self.allocated(),
                inputs@.map_values(|t: TensorBuffer| t@),
                uniform_score@,
            ),
    {
        if self.engine_info.is_none() {
            return Err(MiddlewareError::EngineNotLoaded);
        }
        if !self.buffers_allocated {
            return Err(
                MiddlewareError::InferenceFailed(
                    String::from_str("Buffers not allocated — call allocate_buffers() first"),
                ),
            );
        }
        if inputs.len() == 0 {
            return Err(MiddlewareError::InferenceFailed(String::from_str("No inputs provided")));
        }
        proof {
            use_type_invariant(self);
            crate::backends::simulated::lemma_sim_input_fits();
            crate::backends::simulated::lemma_sim_input_elements();
        }
        let info = match &self.engine_info {
            Some(i) => i,
            None => {
                return Err(MiddlewareError::EngineNotLoaded);
            },
        };
        assert(info@ == sim_info(info@.name, 52428800u64));
        assert(crate::inference::traits::spec_views(info.inputs@).len() == 1);
        assert(crate::inference::traits::spec_views(info.inputs@)[0] == info.inputs@[0]@);
        assert(info.inputs@[0]@ == crate::backends::simulated::sim_input());
        let input_elems = shape_product_exec(&info.inputs[0].shape);
        let expected_input_bytes = input_elems * info.precision.element_size();
        let fp32_expected = input_elems * Precision::FP32.element_size();
        if inputs[0].data.len() != expected_input_bytes && inputs[0].data.len() != fp32_expected {
            let mut m = String::from_str("Input tensor size mismatch: got ");
            push_decimal(&mut m, inputs[0].data.len() as u64);
            push_str(&mut m, " bytes, expected ");
            push_decimal(&mut m, expected_input_bytes as u64);
            push_str(&mut m, " or ");
            push_decimal(&mut m, fp32_expected as u64);
            push_str(&mut m, " bytes");
            return Err(MiddlewareError::InferenceFailed(m));
        }
        let out = uniform_scores(uniform_score);
        assert(buffer_views(out@) =~= seq![uniform_output(sim_output(), uniform_score@)]);
        Ok(out)
    }

    fn release(&mut self) -> (r: Result<(), MiddlewareError>)
        ensures
            !final(self).allocated(),
            final(self).generation() == old(self).generation(),
    {
        self.engine_info = None;
        self.buffers_allocated = false;
        Ok(())
    }

    fn engine_info(&self) -> (r: Option<EngineInfo>) {
        match &self.engine_info {
            Some(i) => Some(i.clone()),
            None => None,
        }
    }

    fn is_ready(&self) -> (b: bool) {
        self.engine_info.is_some() && self.buffers_allocated
    }
}

/// The shape guessed from an element count: the common square RGB inputs
/// (224, 256, 299, 384, 416, 480, 640) as `[1, 3, s, s]`, otherwise
/// `[1, elems]`.
pub open spec fn shape_for_elements(elems: usize) -> Seq<usize> {
    if elems == 3 * 224 * 224 {
        seq![1usize, 3, 224, 224]
    } else if elems == 3 * 256 * 256 {
        seq![1usize, 3, 256, 256]
    } else if elems == 3 * 299 * 299 {
        seq![1usize, 3, 299, 299]
    } else if elems == 3 * 384 * 384 {
        seq![1usize, 3, 384, 384]
    } else if elems == 3 * 416 * 416 {
        seq![1usize, 3, 416, 416]
    } else if elems == 3 * 480 * 480 {
        seq![1usize, 3, 480, 480]
    } else if elems == 3 * 640 * 640 {
        seq![1usize, 3, 640, 640]
    } else {
        seq![1usize, elems]
    }
}

fn square_rgb(side: usize) -> (v: Vec<usize>)
    ensures
        v@ == seq![1usize, 3, side, side],
{
    let mut v: Vec<usize> = Vec::new();
    v.push(1);
    v.push(3);
    v.push(side);
    v.push(side);
    assert(v@ =~= seq![1usize, 3, side, side]);
    v
}

/// Guesses a tensor shape from its element count.
pub fn infer_shape_from_elements(elems: usize) -> (v: Vec<usize>)
    ensures
        v@ == shape_for_elements(elems),
{
    if elems == 3 * 224 * 224 {
        return square_rgb(224);
    }
    if elems == 3 * 256 * 256 {
        return square_rgb(256);
    }
    if elems == 3 * 299 * 299 {
        return square_rgb(299);
    }
    if elems == 3 * 384 * 384 {
        return square_rgb(384);
    }
    if elems == 3 * 416 * 416 {
        return square_rgb(416);
    }
    if elems == 3 * 480 * 480 {
        return square_rgb(480);
    }
    if elems == 3 * 640 * 640 {
        return square_rgb(640);
    }
    let mut v: Vec<usize> = Vec::new();
    v.push(1);
    v.push(elems);
    assert(v@ =~= seq![1usize, elems]);
    v
}

} // verus!
