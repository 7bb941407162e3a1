//! CPU fallback backend; its inference pass is simulated and returns
//! uniform scores.

use vstd::prelude::*;

use crate::backends::simulated::{
    load_view, outputs_view, sim_info, sim_output, simulated_engine_info, stem_or,
    stem_or_else, uniform_output, uniform_scores,
};
use crate::inference::traits::{
    expected_bytes, info_view, size_mismatch, EngineInfo, EngineInfoView,
    InferenceBackend, TensorBuffer, TensorBufferView,
};
use crate::utils::errors::{ErrorView, MiddlewareError};
use crate::utils::text::concat2;

verus! {

/// CPU fallback backend.
pub struct CpuAdapter {
    engine_info: Option<EngineInfo>,
    buffers_allocated: bool,
}

/// What a CPU load of `path` gives.
pub open spec fn cpu_load(path: Seq<char>, file_exists: bool) -> Result<EngineInfoView, ErrorView> {
    if file_exists {
        Ok(sim_info(stem_or(path, "cpu_model"@), 0))
    } else {
        Err(ErrorView::EngineLoadFailed("Model file not found: "@ + path))
    }
}

/// What a CPU inference pass gives.
pub open spec fn cpu_infer(
    loaded: Option<EngineInfoView>,
    allocated: bool,
    inputs: Seq<TensorBufferView>,
    score: Seq<u8>,
) -> Result<Seq<TensorBufferView>, ErrorView> {
    if loaded is None {
        Err(ErrorView::EngineNotLoaded)
    } else if !allocated {
        Err(ErrorView::InferenceFailed("Buffers not allocated"@))
    } else if inputs.len() == 0 {
        Err(ErrorView::InferenceFailed("No inputs provided"@))
    } else if inputs[0].data.len() != expected_bytes(inputs[0]) {
        Err(ErrorView::InferenceFailed("Input validation: "@ + size_mismatch(inputs[0]).message()))
    } else {
        Ok(seq![uniform_output(sim_output(), score)])
    }
}

impl CpuAdapter {
    #[verifier::type_invariant]
    spec fn reports_simulated_engine(self) -> bool {
        match self.engine_info {
            Some(i) => i@ == sim_info(i@.name, 0),
            None => true,
        }
    }

    /// Whether buffers have been allocated.
    pub closed spec fn allocated(&self) -> bool {
        self.buffers_allocated
    }

    /// A CPU backend with no engine loaded.
    pub fn new() -> (a: CpuAdapter)
        ensures
            a.loaded() is None,
            !a.allocated(),
    {
        CpuAdapter { engine_info: None, buffers_allocated: false }
    }
}

impl Default for CpuAdapter {
    fn default() -> (a: CpuAdapter)
        ensures
            a.loaded() is None,
            !a.allocated(),
    {
        CpuAdapter::new()
    }
}

impl InferenceBackend for CpuAdapter {
    open spec fn ready(&self) -> bool {
        self.loaded() is Some && self.allocated()
    }

    closed spec fn loaded(&self) -> Option<EngineInfoView> {
        info_view(self.engine_info)
    }

    fn backend_name(&self) -> (s: &'static str)
        ensures
            s@ == "cpu"@,
    {
        "cpu"
    }

    fn load_engine(&mut self, path: &str, file_exists: bool) -> (r: Result<
        EngineInfo,
        MiddlewareError,
    >)
        ensures
            load_view(r) == cpu_load(path@, file_exists),
            r is Err ==> final(self).loaded() == old(self).loaded(),
            final(self).allocated() == old(self).allocated(),
    {
        if !file_exists {
            return Err(MiddlewareError::EngineLoadFailed(concat2("Model file not found: ", path)));
        }
        let name = stem_or_else(path, "cpu_model");
        let info = simulated_engine_info(name, 0);
        self.engine_info = Some(info.clone());
        Ok(info)
    }

    fn allocate_buffers(&mut self) -> (r: Result<(), MiddlewareError>)
        ensures
            r is Ok,
            final(self).allocated(),
    {
        proof {
            use_type_invariant(&*self);
        }
        self.buffers_allocated = true;
        Ok(())
    }

    fn infer(&self, inputs: &[TensorBuffer], uniform_score: [u8; 4]) -> (r: Result<
        Vec<TensorBuffer>,
        MiddlewareError,
    >)
        ensures
            outputs_view(r) == cpu_infer(
                self.loaded(),
                self.allocated(),
                inputs@.map_values(|t: TensorBuffer| t@),
                uniform_score@,
            ),
    {
        if self.engine_info.is_none() {
            return Err(MiddlewareError::EngineNotLoaded);
        }
        if !self.buffers_allocated {
            return Err(MiddlewareError::InferenceFailed(String::from_str("Buffers not allocated")));
        }
        if inputs.len() == 0 {
            return Err(MiddlewareError::InferenceFailed(String::from_str("No inputs provided")));
        }
        match inputs[0].validate() {
            Err(e) => {
                let m = e.to_string();
                return Err(
                    MiddlewareError::InferenceFailed(concat2("Input validation: ", m.as_str())),
                );
            },
            Ok(()) => {},
        }
        let out = uniform_scores(uniform_score);
        assert(outputs_view(Ok::<Vec<TensorBuffer>, MiddlewareError>(out)) == Ok::<
            Seq<TensorBufferView>,
            ErrorView,
        >(seq![uniform_output(sim_output(), uniform_score@)])) by {
            assert(crate::backends::simulated::buffer_views(out@) =~= seq![
                uniform_output(sim_output(), uniform_score@),
            ]);
        }
        Ok(out)
    }

    fn release(&mut self) -> (r: Result<(), MiddlewareError>)
        ensures
            !final(self).allocated(),
    {
        self.engine_info = None;
        self.buffers_allocated = false;
        Ok(())
    }

    fn engine_info(&self) -> (r: Option<EngineInfo>) {
        match &self.engine_info {
            Some(i) => Some(i.clone()),
            None => None,
        }
    }

    fn is_ready(&self) -> (b: bool) {
        self.engine_info.is_some() && self.buffers_allocated
    }
}

} // verus!
