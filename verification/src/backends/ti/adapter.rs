//! Texas Instruments TDA4 backend (TIDL). Without the TIDL runtime linked
//! in, the engine is simulated: loading always succeeds with an engine
//! named "sim" and the pass returns uniform scores.

use vstd::prelude::*;

use crate::backends::simulated::{
    buffer_views, load_view, outputs_view, sim_info, sim_output, simulated_engine_info,
    uniform_output, uniform_scores,
};
use crate::inference::traits::{
    info_view, EngineInfo, EngineInfoView, InferenceBackend, TensorBuffer, TensorBufferView,
};
use crate::utils::errors::{ErrorView, MiddlewareError};

verus! {

/// TI TDA4 backend adapter.
pub struct TiAdapter {
    engine_info: Option<EngineInfo>,
    buffers_allocated: bool,
    is_simulated: bool,
}

/// What a TI inference pass gives (the input is passed through unchecked).
pub open spec fn ti_infer(
    loaded: Option<EngineInfoView>,
    allocated: bool,
    inputs: Seq<TensorBufferView>,
    score: Seq<u8>,
) -> Result<Seq<TensorBufferView>, ErrorView> {
    if loaded is None {
        Err(ErrorView::EngineNotLoaded)
    } else if !allocated {
        Err(ErrorView::InferenceFailed("Buffers not allocated"@))
    } else if inputs.len() == 0 {
        Err(ErrorView::InferenceFailed("No inputs provided"@))
    } else {
        Ok(seq![uniform_output(sim_output(), score)])
    }
}

impl TiAdapter {
    #[verifier::type_invariant]
    spec fn reports_simulated_engine(self) -> bool {
        match self.engine_info {
            Some(i) => i@ == sim_info("sim"@, 0),
            None => true,
        }
    }

    /// Whether buffers have been allocated.
    pub closed spec fn allocated(&self) -> bool {
        self.buffers_allocated
    }

    /// Whether the engine is simulated.
    pub closed spec fn simulated(&self) -> bool {
        self.is_simulated
    }

    /// An adapter with no engine loaded.
    pub fn new() -> (a: TiAdapter)
        ensures
            a.loaded() is None,
            !a.allocated(),
            a.simulated(),
    {
        TiAdapter { engine_info: None, buffers_allocated: false, is_simulated: true }
    }
}

impl Default for TiAdapter {
    fn default() -> (a: TiAdapter)
        ensures
            a.loaded() is None,
            !a.allocated(),
            a.simulated(),
    {
        TiAdapter::new()
    }
}

impl InferenceBackend for TiAdapter {
    open spec fn ready(&self) -> bool {
        self.loaded() is Some && self.allocated()
    }

    closed spec fn loaded(&self) -> Option<EngineInfoView> {
        info_view(self.engine_info)
    }

    fn backend_name(&self) -> (s: &'static str)
        ensures
            s@ == "ti"@,
    {
        "ti"
    }

    /// Loads the simulated engine; the path is not consulted.
    fn load_engine(&mut self, path: &str, file_exists: bool) -> (r: Result<
        EngineInfo,
        MiddlewareError,
    >)
        ensures
            load_view(r) == Ok::<EngineInfoView, ErrorView>(sim_info("sim"@, 0)),
            final(self).simulated(),
            final(self).allocated() == old(self).allocated(),
    {
        proof {
            use_type_invariant(&*self);
        }
        let info = simulated_engine_info(String::from_str("sim"), 0);
        self.is_simulated = true;
        self.engine_info = Some(info.clone());
        Ok(info)
    }

    fn allocate_buffers(&mut self) -> (r: Result<(), MiddlewareError>)
        ensures
            r is Ok,
            final(self).allocated(),
            final(self).simulated() == old(self).simulated(),
    {
        proof {
            use_type_invariant(&*self);
        }
        self.buffers_allocated = true;
        Ok(())
    }

    fn infer(&self, inputs: &[TensorBuffer], uniform_score: [u8; 4]) -> (r: Result<
        Vec<TensorBuffer>,
        MiddlewareError,
    >)
        ensures
            outputs_view(r) == ti_infer(
                self.loaded(),
                self.allocated(),
                inputs@.map_values(|t: TensorBuffer| t@),
                uniform_score@,
            ),
    {
        if self.engine_info.is_none() {
            return Err(MiddlewareError::EngineNotLoaded);
        }
        if !self.buffers_allocated {
            return Err(MiddlewareError::InferenceFailed(String::from_str("Buffers not allocated")));
        }
        if inputs.len() == 0 {
            return Err(MiddlewareError::InferenceFailed(String::from_str("No inputs provided")));
        }
        let out = uniform_scores(uniform_score);
        assert(buffer_views(out@) =~= seq![uniform_output(sim_output(), uniform_score@)]);
        Ok(out)
    }

    fn release(&mut self) -> (r: Result<(), MiddlewareError>)
        ensures
            !final(self).allocated(),
            final(self).simulated(),
    {
        self.engine_info = None;
        self.buffers_allocated = false;
        self.is_simulated = true;
        Ok(())
    }

    fn engine_info(&self) -> (r: Option<EngineInfo>) {
        match &self.engine_info {
            Some(i) => Some(i.clone()),
            None => None,
        }
    }

    fn is_ready(&self) -> (b: bool) {
        self.engine_info.is_some() && self.buffers_allocated
    }
}

} // verus!
