//! The middleware facade: lifecycle-checked initialization, engine loading,
//! inference and shutdown over the engine manager.
//!
//! Reading the labels file and checking that an engine file exists are the
//! caller's part; their outcomes are passed in.

use vstd::prelude::*;

use crate::backends::cpu::adapter::{cpu_infer, cpu_load};
use crate::backends::simulated::{outputs_view, sim_output, uniform_output};
use crate::inference::engine_manager::EngineManager;
use crate::inference::traits::{
    expected_bytes, info_view, size_computable, EngineInfo, EngineInfoView, TensorBuffer,
    TensorBufferView,
};
use crate::lifecycle::state_manager::{ordinal, state_name, State, StateManager};
use crate::postprocess::classifier::Classifier;
use crate::utils::errors::{
    invalid_state, invalid_transition, ErrorView, MiddlewareConfig, MiddlewareError,
};
use crate::utils::text::{nonblank_trimmed, split_pieces};

verus! {

/// The middleware: lifecycle state, configuration, engine manager and
/// classifier.
pub struct Middleware {
    state: StateManager,
    config: MiddlewareConfig,
    engine_manager: Option<EngineManager>,
    classifier: Classifier,
}

/// What inference gives in a lifecycle state: only `Ready` runs the engine.
pub open spec fn middleware_infer(
    state: State,
    engine: Option<(Option<EngineInfoView>, bool)>,
    inputs: Seq<TensorBufferView>,
    score: Seq<u8>,
) -> Result<Seq<TensorBufferView>, ErrorView> {
    if state != State::Ready {
        Err(invalid_state(state_name(State::Ready), state_name(state)))
    } else {
        match engine {
            None => Err(ErrorView::EngineNotLoaded),
            Some((loaded, allocated)) => cpu_infer(loaded, allocated, inputs, score),
        }
    }
}

impl Middleware {
    /// The lifecycle state.
    pub closed spec fn state_of(&self) -> State {
        self.state@
    }

    /// The active configuration.
    pub closed spec fn config_of(&self) -> MiddlewareConfig {
        self.config
    }

    /// Whether an engine manager exists (after a successful initialization).
    pub closed spec fn has_manager(&self) -> bool {
        self.engine_manager is Some
    }

    /// The engine manager's loaded engine and buffer state, if there is a
    /// manager.
    pub closed spec fn engine(&self) -> Option<(Option<EngineInfoView>, bool)> {
        match self.engine_manager {
            Some(m) => Some((m.loaded(), m.allocated())),
            None => None,
        }
    }

    /// The loaded engine, if any.
    pub open spec fn loaded_engine(&self) -> Option<EngineInfoView> {
        match self.engine() {
            Some((l, _)) => l,
            None => None,
        }
    }

    /// The classifier's labels.
    pub closed spec fn labels(&self) -> Seq<Seq<char>> {
        self.classifier.labels()
    }

    /// Whether the classifier applies softmax.
    pub closed spec fn softmax(&self) -> bool {
        self.classifier.softmax_on()
    }

    /// The middleware's invariant: `Ready` always has a loaded engine with
    /// allocated buffers, and `EngineLoaded` is never left standing.
    pub closed spec fn wf(&self) -> bool {
        &&& self.state@ == State::Ready ==> (self.engine_manager matches Some(m) && m.ready())
        &&& self.state@ != State::EngineLoaded
    }

    /// An uninitialized middleware.
    pub fn new() -> (m: Middleware)
        ensures
            m.wf(),
            m.state_of() == State::Uninitialized,
            !m.has_manager(),
            m.labels().len() == 0,
            !m.softmax(),
    {
        Middleware {
            state: StateManager::new(),
            config: MiddlewareConfig::default(),
            engine_manager: None,
            classifier: Classifier::new(false),
        }
    }

    /// Initializes with `config`. `labels` is what reading
    /// `config.labels_path` gave (`None` when there is no labels file): the
    /// file's text, or why it could not be read.
    pub fn initialize(&mut self, config: MiddlewareConfig, labels: Option<Result<String, String>>) -> (r:
        Result<(), MiddlewareError>)
        requires
            old(self).wf(),
            labels is Some <==> config.labels_path is Some,
        ensures
            final(self).wf(),
            old(self).state_of() != State::Uninitialized ==> (r matches Err(e) && e@
                == invalid_transition(state_name(old(self).state_of()), "Initialized"@))
                && final(self).state_of() == old(self).state_of() && final(self).engine() == old(
                self,
            ).engine(),
            old(self).state_of() == State::Uninitialized ==> final(self).state_of()
                == State::Initialized,
            old(self).state_of() == State::Uninitialized ==> (labels matches Some(Err(reason)) ==> (
            r matches Err(e) && e@ == ErrorView::ConfigError(
                "Failed to load labels from '"@ + config.labels_path.unwrap()@ + "': "@ + reason@,
            )) && final(self).engine() == old(self).engine()),
            old(self).state_of() == State::Uninitialized && !(labels matches Some(Err(_))) ==> r
                is Ok && final(self).config_of() == config && final(self).engine() == Some(
                (None::<EngineInfoView>, false),
            ) && final(self).softmax() && final(self).labels() == match labels {
                Some(Ok(text)) => nonblank_trimmed(split_pieces(text@, '\n')),
                _ => Seq::<Seq<char>>::empty(),
            },
    {
        self.state.transition_to(State::Initialized)?;
        let manager = match EngineManager::new(config.backend.as_str()) {
            Ok(m) => m,
            Err(e) => {
                self.state.set_error();
                return Err(e);
            },
        };
        let classifier = match (&labels, &config.labels_path) {
            (Some(Ok(text)), _) => Classifier::from_label_text(text.as_str(), true),
            (Some(Err(reason)), Some(path)) => {
                return Err(Classifier::labels_file_error(path.as_str(), reason.as_str()));
            },
            _ => Classifier::new(true),
        };
        self.engine_manager = Some(manager);
        self.classifier = classifier;
        self.config = config;
        Ok(())
    }

    /// Loads the engine at `path` (`file_exists` tells whether the file is
    /// there) and brings the middleware to `Ready`. A failed load moves it
    /// to `Error`.
    pub fn load_engine(&mut self, path: &str, file_exists: bool) -> (r: Result<
        EngineInfo,
        MiddlewareError,
    >)
        requires
            old(self).wf(),
        ensures
            final(self).wf(),
            ordinal(old(self).state_of()) < ordinal(State::Initialized) ==> (r matches Err(e)
                && e@ == invalid_state("at least "@ + state_name(State::Initialized), state_name(
                old(self).state_of(),
            ))) && *final(self) == *old(self),
            ordinal(old(self).state_of()) >= ordinal(State::Initialized) && !old(self).has_manager()
                ==> (r matches Err(e) && e@ == ErrorView::Internal(
                "Engine manager not initialized"@,
            )) && *final(self) == *old(self),
            ordinal(old(self).state_of()) >= ordinal(State::Initialized) && old(self).has_manager()
                && !file_exists ==> (r matches Err(e) && e@ == ErrorView::EngineLoadFailed(
                "Model file not found: "@ + path@,
            )) && final(self).state_of() == State::Error,
            ordinal(old(self).state_of()) >= ordinal(State::Initialized) && old(self).has_manager()
                && file_exists && old(self).state_of() != State::Error ==> (r matches Ok(info)
                && Ok::<EngineInfoView, ErrorView>(info@) == cpu_load(path@, true)
                && final(self).state_of() == State::Ready && final(self).loaded_engine() == Some(
                info@,
            )),
            old(self).state_of() == State::Error && old(self).has_manager() && file_exists ==> (
            r matches Err(e) && e@ == invalid_transition("Error"@, "Ready"@))
                && final(self).state_of() == State::Error,
            r is Ok ==> final(self).state_of() == State::Ready,
            final(self).config_of() == old(self).config_of(),
    {
        self.state.require_at_least(State::Initialized)?;
        let loaded = match &mut self.engine_manager {
            None => {
                return Err(
                    MiddlewareError::Internal(String::from_str("Engine manager not initialized")),
                );
            },
            Some(m) => m.load_engine(path, file_exists),
        };
        let info = match loaded {
            Ok(info) => info,
            Err(e) => {
                self.state.set_error();
                return Err(e);
            },
        };
        let current = self.state.current();
        if current == State::Initialized || current == State::Ready {
            self.state.transition_to(State::EngineLoaded)?;
        }
        self.state.transition_to(State::Ready)?;
        Ok(info)
    }

    /// Runs inference; only a `Ready` middleware runs the engine.
    pub fn infer(&self, inputs: &[TensorBuffer], uniform_score: [u8; 4]) -> (r: Result<
        Vec<TensorBuffer>,
        MiddlewareError,
    >)
        requires
            self.wf(),
            inputs@.len() > 0 ==> size_computable(inputs@[0]@),
        ensures
            outputs_view(r) == middleware_infer(
                self.state_of(),
                self.engine(),
                inputs@.map_values(|t: TensorBuffer| t@),
                uniform_score@,
            ),
    {
        self.state.require(State::Ready)?;
        match &self.engine_manager {
            None => Err(MiddlewareError::EngineNotLoaded),
            Some(m) => m.infer(inputs, uniform_score),
        }
    }

    /// The lifecycle state.
    pub fn state(&self) -> (s: State)
        ensures
            s == self.state_of(),
    {
        self.state.current()
    }

    /// A copy of the loaded engine's metadata, if any.
    pub fn engine_info(&self) -> (r: Option<EngineInfo>)
        ensures
            info_view(r) == self.loaded_engine(),
    {
        match &self.engine_manager {
            Some(m) => m.engine_info_owned(),
            None => None,
        }
    }

    /// The classifier applied to inference outputs.
    pub fn classifier(&self) -> (c: &Classifier)
        ensures
            c.labels() == self.labels(),
            c.softmax_on() == self.softmax(),
    {
        &self.classifier
    }

    /// A copy of the active configuration.
    pub fn config(&self) -> (c: MiddlewareConfig)
        ensures
            c == self.config_of(),
    {
        self.config.clone()
    }

    /// The backend's name, or `"none"` before initialization.
    pub fn backend_name(&self) -> (s: String)
        ensures
            s@ == (if self.has_manager() {
                "cpu"@
            } else {
                "none"@
            }),
    {
        match &self.engine_manager {
            Some(m) => String::from_str(m.backend_name()),
            None => String::from_str("none"),
        }
    }

    /// Releases the engine and returns to `Uninitialized`; shutting down an
    /// uninitialized middleware reports an invalid transition.
    pub fn shutdown(&mut self) -> (r: Result<(), MiddlewareError>)
        requires
            old(self).wf(),
        ensures
            final(self).wf(),
            !final(self).has_manager(),
            final(self).state_of() == State::Uninitialized,
            old(self).state_of() != State::Uninitialized <==> r is Ok,
            r matches Err(e) ==> e@ == invalid_transition("Uninitialized"@, "Uninitialized"@),
    {
        match &mut self.engine_manager {
            Some(m) => {
                let _ = m.release();
            },
            None => {},
        }
        self.engine_manager = None;
        self.state.transition_to(State::Uninitialized)
    }
}

impl Default for Middleware {
    fn default() -> (m: Middleware)
        ensures
            m.wf(),
            m.state_of() == State::Uninitialized,
            !m.has_manager(),
    {
        Middleware::new()
    }
}

/// A well-formed middleware in `Ready` has a loaded engine whose buffers
/// are allocated.
pub proof fn lemma_ready_has_engine(m: &Middleware)
    requires
        m.wf(),
        m.state_of() == State::Ready,
    ensures
        m.engine() matches Some((Some(_), true)),
{
}

/// Inference succeeds only in `Ready`; in any other state it is refused
/// with an invalid-state error naming the required and the current state.
pub proof fn lemma_infer_only_when_ready(
    state: State,
    engine: Option<(Option<EngineInfoView>, bool)>,
    inputs: Seq<TensorBufferView>,
    score: Seq<u8>,
)
    ensures
        middleware_infer(state, engine, inputs, score) is Ok ==> state == State::Ready,
        state != State::Ready ==> middleware_infer(state, engine, inputs, score) == Err::<
            Seq<TensorBufferView>,
            ErrorView,
        >(invalid_state(state_name(State::Ready), state_name(state))),
{
}

/// A `Ready` middleware with its engine loaded answers every input whose
/// first tensor holds exactly the bytes its shape and precision call for,
/// with one output of 1000 uniform scores.
pub proof fn lemma_ready_accepts_well_sized_input(
    info: EngineInfoView,
    inputs: Seq<TensorBufferView>,
    score: Seq<u8>,
)
    requires
        inputs.len() > 0,
        inputs[0].data.len() == expected_bytes(inputs[0]),
    ensures
        middleware_infer(State::Ready, Some((Some(info), true)), inputs, score) == Ok::<
            Seq<TensorBufferView>,
            ErrorView,
        >(seq![uniform_output(sim_output(), score)]),
{
}

} // verus!
