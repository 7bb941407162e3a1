//! Engine manager: owns the backend selected for this build and drives its
//! load / allocate / infer / release lifecycle.

use vstd::prelude::*;

use crate::backends::cpu::adapter::{cpu_infer, cpu_load, CpuAdapter};
use crate::backends::simulated::{load_view, outputs_view};
use crate::inference::traits::{
    size_computable, EngineInfo, EngineInfoView, InferenceBackend, TensorBuffer,
};
use crate::utils::errors::MiddlewareError;

verus! {

/// Owns the active inference backend (the CPU fallback in this build).
pub struct EngineManager {
    backend: CpuAdapter,
}

impl EngineManager {
    /// The engine loaded in the backend, if any.
    pub closed spec fn loaded(&self) -> Option<EngineInfoView> {
        self.backend.loaded()
    }

    /// Whether the backend's buffers are allocated.
    pub closed spec fn allocated(&self) -> bool {
        self.backend.allocated()
    }

    /// Whether an engine is loaded and its buffers allocated.
    pub open spec fn ready(&self) -> bool {
        self.loaded() is Some && self.allocated()
    }

    /// Creates a manager around the backend for `backend_type`; every name
    /// selects the CPU fallback in this build, so creation always succeeds.
    pub fn new(backend_type: &str) -> (r: Result<EngineManager, MiddlewareError>)
        ensures
            r matches Ok(m) && m.loaded() is None && !m.allocated(),
    {
        Ok(EngineManager { backend: CpuAdapter::new() })
    }

    /// Loads the engine at `path` (`file_exists` tells whether the file is
    /// there) and allocates its buffers.
    pub fn load_engine(&mut self, path: &str, file_exists: bool) -> (r: Result<
        EngineInfo,
        MiddlewareError,
    >)
        ensures
            load_view(r) == cpu_load(path@, file_exists),
            r matches Ok(info) ==> final(self).loaded() == Some(info@) && final(self).allocated(),
            r is Err ==> final(self).loaded() == old(self).loaded() && final(self).allocated()
                == old(self).allocated(),
    {
        let info = self.backend.load_engine(path, file_exists)?;
        let allocated = self.backend.allocate_buffers();
        match allocated {
            Ok(()) => Ok(info),
            Err(e) => Err(e),
        }
    }

    /// Runs one forward pass on the backend.
    pub fn infer(&self, inputs: &[TensorBuffer], uniform_score: [u8; 4]) -> (r: Result<
        Vec<TensorBuffer>,
        MiddlewareError,
    >)
        requires
            inputs@.len() > 0 ==> size_computable(inputs@[0]@),
        ensures
            outputs_view(r) == cpu_infer(
                self.loaded(),
                self.allocated(),
                inputs@.map_values(|t: TensorBuffer| t@),
                uniform_score@,
            ),
    {
        self.backend.infer(inputs, uniform_score)
    }

    /// Borrowed engine metadata; only meaningful while no engine is loaded
    /// (callers wanting the metadata use `engine_info_owned`).
    pub fn engine_info(&self) -> (r: Option<&EngineInfo>)
        requires
            self.loaded() is None,
        ensures
            r is None,
    {
        None
    }

    /// A copy of the loaded engine's metadata, if any.
    pub fn engine_info_owned(&self) -> (r: Option<EngineInfo>)
        ensures
            match r {
                Some(i) => self.loaded() == Some(i@),
                None => self.loaded() is None,
            },
    {
        self.backend.engine_info()
    }

    /// The backend's identifier.
    pub fn backend_name(&self) -> (s: &'static str)
        ensures
            s@ == "cpu"@,
    {
        self.backend.backend_name()
    }

    /// Releases the backend's engine and buffers.
    pub fn release(&mut self) -> (r: Result<(), MiddlewareError>)
        ensures
            r is Ok,
            final(self).loaded() is None,
            !final(self).allocated(),
    {
        self.backend.release()
    }

    /// The backend itself.
    pub fn get_backend(&self) -> (b: &CpuAdapter)
        ensures
            b.loaded() == self.loaded(),
            b.allocated() == self.allocated(),
    {
        &self.backend
    }
}

} // verus!
