//! Qualcomm Snapdragon backend (SNPE / QNN). Without the SDK runtime linked
//! in, the runtime is simulated: the engine is described from the file
//! name and the pass returns uniform scores.

use vstd::prelude::*;

use crate::backends::simulated::{
    buffer_views, load_view, outputs_view, sim_info, sim_output, simulated_engine_info, stem_or,
    stem_or_else, uniform_output, uniform_scores,
};
use crate::inference::traits::{
    info_view, EngineInfo, EngineInfoView, InferenceBackend, TensorBuffer, TensorBufferView,
};
use crate::utils::errors::{ErrorView, MiddlewareError};
use crate::utils::text::concat2;

verus! {

/// The Qualcomm runtime in use.
#[derive(Debug, Clone, Copy, PartialEq, Eq, Structural)]
pub enum QualcommRuntime {
    Unselected,
    Qnn,
    Snpe,
    Simulated,
}

/// Qualcomm backend adapter.
pub struct QualcommAdapter {
    engine_info: Option<EngineInfo>,
    buffers_allocated: bool,
    runtime: QualcommRuntime,
}

/// What a Qualcomm load of `path` gives.
pub open spec fn qualcomm_load(path: Seq<char>, file_exists: bool) -> Result<
    EngineInfoView,
    ErrorView,
> {
    if file_exists {
        Ok(sim_info(stem_or(path, "qualcomm_sim"@), 0))
    } else {
        Err(ErrorView::EngineLoadFailed("Model file not found: "@ + path))
    }
}

/// What a Qualcomm inference pass gives (the input is passed through
/// unchecked).
pub open spec fn qualcomm_infer(
    loaded: Option<EngineInfoView>,
    allocated: bool,
    inputs: Seq<TensorBufferView>,
    score: Seq<u8>,
) -> Result<Seq<TensorBufferView>, ErrorView> {
    if loaded is None {
        Err(ErrorView::EngineNotLoaded)
    } else if !allocated {
        Err(ErrorView::InferenceFailed("Buffers not allocated"@))
    } else if inputs.len() == 0 {
        Err(ErrorView::InferenceFailed("No inputs provided"@))
    } else {
        Ok(seq![uniform_output(sim_output(), score)])
    }
}

impl QualcommAdapter {
    #[verifier::type_invariant]
    spec fn reports_simulated_engine(self) -> bool {
        match self.engine_info {
            Some(i) => i@ == sim_info(i@.name, 0),
            None => true,
        }
    }

    /// Whether buffers have been allocated.
    pub closed spec fn allocated(&self) -> bool {
        self.buffers_allocated
    }

    /// The runtime in use.
    pub closed spec fn active_runtime(&self) -> QualcommRuntime {
        self.runtime
    }

    /// An adapter with no engine and no runtime selected.
    pub fn new() -> (a: QualcommAdapter)
        ensures
            a.loaded() is None,
            !a.allocated(),
            a.active_runtime() == QualcommRuntime::Unselected,
    {
        QualcommAdapter {
            engine_info: None,
            buffers_allocated: false,
            runtime: QualcommRuntime::Unselected,
        }
    }

    /// The runtime to use; with no SDK runtime linked in it is the
    /// simulated one.
    fn detect_runtime() -> (r: QualcommRuntime)
        ensures
            r == QualcommRuntime::Simulated,
    {
        QualcommRuntime::Simulated
    }

    /// The runtime in use.
    pub fn runtime(&self) -> (r: QualcommRuntime)
        ensures
            r == self.active_runtime(),
    {
        self.runtime
    }
}

impl Default for QualcommAdapter {
    fn default() -> (a: QualcommAdapter)
        ensures
            a.loaded() is None,
            !a.allocated(),
            a.active_runtime() == QualcommRuntime::Unselected,
    {
        QualcommAdapter::new()
    }
}

impl InferenceBackend for QualcommAdapter {
    open spec fn ready(&self) -> bool {
        self.loaded() is Some && self.allocated()
    }

    closed spec fn loaded(&self) -> Option<EngineInfoView> {
        info_view(self.engine_info)
    }

    fn backend_name(&self) -> (s: &'static str)
        ensures
            s@ == "qualcomm"@,
    {
        "qualcomm"
    }

    fn load_engine(&mut self, path: &str, file_exists: bool) -> (r: Result<
        EngineInfo,
        MiddlewareError,
    >)
        ensures
            load_view(r) == qualcomm_load(path@, file_exists),
            r is Err ==> final(self).loaded() == old(self).loaded() && final(self).active_runtime()
                == old(self).active_runtime(),
            r is Ok ==> final(self).active_runtime() == QualcommRuntime::Simulated,
            final(self).allocated() == old(self).allocated(),
    {
        if !file_exists {
            return Err(MiddlewareError::EngineLoadFailed(concat2("Model file not found: ", path)));
        }
        proof {
            use_type_invariant(&*self);
        }
        self.runtime = QualcommAdapter::detect_runtime();
        let name = stem_or_else(path, "qualcomm_sim");
        let info = simulated_engine_info(name, 0);
        self.runtime = QualcommRuntime::Simulated;
        self.engine_info = Some(info.clone());
        Ok(info)
    }

    fn allocate_buffers(&mut self) -> (r: Result<(), MiddlewareError>)
        ensures
            r is Ok,
            final(self).allocated(),
            final(self).active_runtime() == old(self).active_runtime(),
    {
        proof {
            use_type_invariant(&*self);
        }
        self.buffers_allocated = true;
        Ok(())
    }

    fn infer(&self, inputs: &[TensorBuffer], uniform_score: [u8; 4]) -> (r: Result<
        Vec<TensorBuffer>,
        MiddlewareError,
    >)
        ensures
            outputs_view(r) == qualcomm_infer(
                self.loaded(),
                self.allocated(),
                inputs@.map_values(|t: TensorBuffer| t@),
                uniform_score@,
            ),
    {
        if self.engine_info.is_none() {
            return Err(MiddlewareError::EngineNotLoaded);
        }
        if !self.buffers_allocated {
            return Err(MiddlewareError::InferenceFailed(String::from_str("Buffers not allocated")));
        }
        if inputs.len() == 0 {
            return Err(MiddlewareError::InferenceFailed(String::from_str("No inputs provided")));
        }
        let out = uniform_scores(uniform_score);
        assert(buffer_views(out@) =~= seq![uniform_output(sim_output(), uniform_score@)]);
        Ok(out)
    }

    fn release(&mut self) -> (r: Result<(), MiddlewareError>)
        ensures
            !final(self).allocated(),
            final(self).active_runtime() == QualcommRuntime::Unselected,
    {
        self.engine_info = None;
        self.buffers_allocated = false;
        self.runtime = QualcommRuntime::Unselected;
        Ok(())
    }

    fn engine_info(&self) -> (r: Option<EngineInfo>) {
        match &self.engine_info {
            Some(i) => Some(i.clone()),
            None => None,
        }
    }

    fn is_ready(&self) -> (b: bool) {
        self.engine_info.is_some() && self.buffers_allocated
    }
}

} // verus!
