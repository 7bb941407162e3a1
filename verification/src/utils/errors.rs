//! Error type, numeric precision modes and configuration records shared by
//! every module.

use vstd::prelude::*;

use crate::utils::text::{
    ascii_lower, concat2, concat3, concat4, is_ascii_text, str_eq, to_lowercase, unicode_lowercase,
};

verus! {

/// Top-level error type of the middleware.
#[derive(Debug)]
pub enum MiddlewareError {
    InvalidStateTransition { from: String, to: String },
    InvalidState { required: String, current: String },
    EngineLoadFailed(String),
    InferenceFailed(String),
    BufferAllocationFailed(String),
    EngineNotLoaded,
    HardwareDetectionFailed(String),
    UnsupportedHardware(String),
    BackendUnavailable(String),
    PreprocessingFailed(String),
    ImageLoadFailed(String),
    PostprocessingFailed(String),
    ModelLoadFailed(String),
    ConfigError(String),
    /// An I/O failure, carried by its rendered message.
    Io(String),
    InputExhausted(String),
    FfiError { backend: String, message: String },
    OptimizationFailed(String),
    DependencyMissing(String),
    Internal(String),
}

/// The result type used throughout the middleware.
pub type MiddlewareResult<T> = Result<T, MiddlewareError>;

/// The error with each text payload taken as a character sequence.
pub enum ErrorView {
    InvalidStateTransition { from: Seq<char>, to: Seq<char> },
    InvalidState { required: Seq<char>, current: Seq<char> },
    EngineLoadFailed(Seq<char>),
    InferenceFailed(Seq<char>),
    BufferAllocationFailed(Seq<char>),
    EngineNotLoaded,
    HardwareDetectionFailed(Seq<char>),
    UnsupportedHardware(Seq<char>),
    BackendUnavailable(Seq<char>),
    PreprocessingFailed(Seq<char>),
    ImageLoadFailed(Seq<char>),
    PostprocessingFailed(Seq<char>),
    ModelLoadFailed(Seq<char>),
    ConfigError(Seq<char>),
    Io(Seq<char>),
    InputExhausted(Seq<char>),
    FfiError { backend: Seq<char>, message: Seq<char> },
    OptimizationFailed(Seq<char>),
    DependencyMissing(Seq<char>),
    Internal(Seq<char>),
}

impl View for MiddlewareError {
    type V = ErrorView;

    open spec fn view(&self) -> ErrorView {
        match self {
            MiddlewareError::InvalidStateTransition { from, to } => ErrorView::InvalidStateTransition {
                from: from@,
                to: to@,
            },
            MiddlewareError::InvalidState { required, current } => ErrorView::InvalidState {
                required: required@,
                current: current@,
            },
            MiddlewareError::EngineLoadFailed(m) => ErrorView::EngineLoadFailed(m@),
            MiddlewareError::InferenceFailed(m) => ErrorView::InferenceFailed(m@),
            MiddlewareError::BufferAllocationFailed(m) => ErrorView::BufferAllocationFailed(m@),
            MiddlewareError::EngineNotLoaded => ErrorView::EngineNotLoaded,
            MiddlewareError::HardwareDetectionFailed(m) => ErrorView::HardwareDetectionFailed(m@),
            MiddlewareError::UnsupportedHardware(m) => ErrorView::UnsupportedHardware(m@),
            MiddlewareError::BackendUnavailable(m) => ErrorView::BackendUnavailable(m@),
            MiddlewareError::PreprocessingFailed(m) => ErrorView::PreprocessingFailed(m@),
            MiddlewareError::ImageLoadFailed(m) => ErrorView::ImageLoadFailed(m@),
            MiddlewareError::PostprocessingFailed(m) => ErrorView::PostprocessingFailed(m@),
            MiddlewareError::ModelLoadFailed(m) => ErrorView::ModelLoadFailed(m@),
            MiddlewareError::ConfigError(m) => ErrorView::ConfigError(m@),
            MiddlewareError::Io(m) => ErrorView::Io(m@),
            MiddlewareError::InputExhausted(m) => ErrorView::InputExhausted(m@),
            MiddlewareError::FfiError { backend, message } => ErrorView::FfiError {
                backend: backend@,
                message: message@,
            },
            MiddlewareError::OptimizationFailed(m) => ErrorView::OptimizationFailed(m@),
            MiddlewareError::DependencyMissing(m) => ErrorView::DependencyMissing(m@),
            MiddlewareError::Internal(m) => ErrorView::Internal(m@),
        }
    }
}

impl ErrorView {
    /// The human-readable message of the error.
    pub open spec fn message(self) -> Seq<char> {
        match self {
            ErrorView::InvalidStateTransition { from, to } =>
                "Invalid state transition: cannot move from "@ + from + " to "@ + to,
            ErrorView::InvalidState { required, current } => "Operation requires state '"@
                + required + "', but current state is '"@ + current + "'"@,
            ErrorView::EngineLoadFailed(m) => "Engine load failed: "@ + m,
            ErrorView::InferenceFailed(m) => "Inference execution failed: "@ + m,
            ErrorView::BufferAllocationFailed(m) => "Buffer allocation failed: "@ + m,
            ErrorView::EngineNotLoaded => "Engine not loaded"@,
            ErrorView::HardwareDetectionFailed(m) => "Hardware detection failed: "@ + m,
            ErrorView::UnsupportedHardware(m) => "Unsupported hardware: "@ + m,
            ErrorView::BackendUnavailable(m) => "Backend '"@ + m
                + "' is not available on this platform"@,
            ErrorView::PreprocessingFailed(m) => "Preprocessing failed: "@ + m,
            ErrorView::ImageLoadFailed(m) => "Image load failed: "@ + m,
            ErrorView::PostprocessingFailed(m) => "Postprocessing failed: "@ + m,
            ErrorView::ModelLoadFailed(m) => "Model loading failed: "@ + m,
            ErrorView::ConfigError(m) => "Configuration error: "@ + m,
            ErrorView::Io(m) => "I/O error: "@ + m,
            ErrorView::InputExhausted(m) => "Input source exhausted or disconnected: "@ + m,
            ErrorView::FfiError { backend, message } => "FFI error in backend '"@ + backend
                + "': "@ + message,
            ErrorView::OptimizationFailed(m) => "Model optimization failed: "@ + m,
            ErrorView::DependencyMissing(m) => "Dependency missing: "@ + m,
            ErrorView::Internal(m) => "Internal error: "@ + m,
        }
    }
}

/// The view of an invalid-transition error.
pub open spec fn invalid_transition(from: Seq<char>, to: Seq<char>) -> ErrorView {
    ErrorView::InvalidStateTransition { from, to }
}

/// The view of an invalid-state error.
pub open spec fn invalid_state(required: Seq<char>, current: Seq<char>) -> ErrorView {
    ErrorView::InvalidState { required, current }
}

impl MiddlewareError {
    /// The human-readable message of the error.
    pub fn to_string(&self) -> (s: String)
        ensures
            s@ == self@.message(),
    {
        match self {
            MiddlewareError::InvalidStateTransition { from, to } => concat4(
                "Invalid state transition: cannot move from ",
                from.as_str(),
                " to ",
                to.as_str(),
            ),
            MiddlewareError::InvalidState { required, current } => {
                let mut s = concat4(
                    "Operation requires state '",
                    required.as_str(),
                    "', but current state is '",
                    current.as_str(),
                );
                s.append("'");
                s
            },
            MiddlewareError::EngineLoadFailed(m) => concat2("Engine load failed: ", m.as_str()),
            MiddlewareError::InferenceFailed(m) => concat2(
                "Inference execution failed: ",
                m.as_str(),
            ),
            MiddlewareError::BufferAllocationFailed(m) => concat2(
                "Buffer allocation failed: ",
                m.as_str(),
            ),
            MiddlewareError::EngineNotLoaded => String::from_str("Engine not loaded"),
            MiddlewareError::HardwareDetectionFailed(m) => concat2(
                "Hardware detection failed: ",
                m.as_str(),
            ),
            MiddlewareError::UnsupportedHardware(m) => concat2(
                "Unsupported hardware: ",
                m.as_str(),
            ),
            MiddlewareError::BackendUnavailable(m) => concat3(
                "Backend '",
                m.as_str(),
                "' is not available on this platform",
            ),
            MiddlewareError::PreprocessingFailed(m) => concat2(
                "Preprocessing failed: ",
                m.as_str(),
            ),
            MiddlewareError::ImageLoadFailed(m) => concat2("Image load failed: ", m.as_str()),
            MiddlewareError::PostprocessingFailed(m) => concat2(
                "Postprocessing failed: ",
                m.as_str(),
            ),
            MiddlewareError::ModelLoadFailed(m) => concat2("Model loading failed: ", m.as_str()),
            MiddlewareError::ConfigError(m) => concat2("Configuration error: ", m.as_str()),
            MiddlewareError::Io(m) => concat2("I/O error: ", m.as_str()),
            MiddlewareError::InputExhausted(m) => concat2(
                "Input source exhausted or disconnected: ",
                m.as_str(),
            ),
            MiddlewareError::FfiError { backend, message } => concat4(
                "FFI error in backend '",
                backend.as_str(),
                "': ",
                message.as_str(),
            ),
            MiddlewareError::OptimizationFailed(m) => concat2(
                "Model optimization failed: ",
                m.as_str(),
            ),
            MiddlewareError::DependencyMissing(m) => concat2(
                "Dependency missing: ",
                m.as_str(),
            ),
            MiddlewareError::Internal(m) => concat2("Internal error: ", m.as_str()),
        }
    }
}

/// Numeric precision modes supported by backend runtimes.
#[derive(Debug, Clone, Copy, PartialEq, Eq, Structural, Hash)]
pub enum Precision {
    FP32,
    FP16,
    INT8,
    FP8,
}

impl Default for Precision {
    fn default() -> (p: Precision)
        ensures
            p == Precision::FP32,
    {
        Precision::FP32
    }
}

/// Bytes per element for each precision.
pub open spec fn element_bytes(p: Precision) -> nat {
    match p {
        Precision::FP32 => 4,
        Precision::FP16 => 2,
        Precision::INT8 => 1,
        Precision::FP8 => 1,
    }
}

/// The lowercase short name used in file names and command lines.
pub open spec fn short_name(p: Precision) -> Seq<char> {
    match p {
        Precision::FP32 => "fp32"@,
        Precision::FP16 => "fp16"@,
        Precision::INT8 => "int8"@,
        Precision::FP8 => "fp8"@,
    }
}

/// The uppercase display name.
pub open spec fn display_name(p: Precision) -> Seq<char> {
    match p {
        Precision::FP32 => "FP32"@,
        Precision::FP16 => "FP16"@,
        Precision::INT8 => "INT8"@,
        Precision::FP8 => "FP8"@,
    }
}

/// The precision a lowercase name denotes, with its accepted aliases.
pub open spec fn precision_for_name(s: Seq<char>) -> Option<Precision> {
    if s == "fp32"@ || s == "float32"@ {
        Some(Precision::FP32)
    } else if s == "fp16"@ || s == "float16"@ || s == "half"@ {
        Some(Precision::FP16)
    } else if s == "int8"@ || s == "i8"@ {
        Some(Precision::INT8)
    } else if s == "fp8"@ || s == "float8"@ {
        Some(Precision::FP8)
    } else {
        None
    }
}

impl Precision {
    /// Size of one element in bytes for this precision.
    pub fn element_size(self) -> (n: usize)
        ensures
            n == element_bytes(self),
    {
        match self {
            Precision::FP32 => 4,
            Precision::FP16 => 2,
            Precision::INT8 => 1,
            Precision::FP8 => 1,
        }
    }

    /// Lowercase short name for file names and command-line arguments.
    pub fn as_str(self) -> (s: &'static str)
        ensures
            s@ == short_name(self),
    {
        match self {
            Precision::FP32 => "fp32",
            Precision::FP16 => "fp16",
            Precision::INT8 => "int8",
            Precision::FP8 => "fp8",
        }
    }

    /// Uppercase display name (`"FP32"`, `"FP16"`, `"INT8"`, `"FP8"`).
    pub fn display_str(self) -> (s: &'static str)
        ensures
            s@ == display_name(self),
    {
        match self {
            Precision::FP32 => "FP32",
            Precision::FP16 => "FP16",
            Precision::INT8 => "INT8",
            Precision::FP8 => "FP8",
        }
    }

    /// The display name as an owned string.
    pub fn to_string(self) -> (s: String)
        ensures
            s@ == display_name(self),
    {
        String::from_str(self.display_str())
    }

    /// The precision that an already lowercased name denotes.
    pub fn from_lowercase_name(s: &str) -> (r: Option<Precision>)
        ensures
            r == precision_for_name(s@),
    {
        if str_eq(s, "fp32") || str_eq(s, "float32") {
            Some(Precision::FP32)
        } else if str_eq(s, "fp16") || str_eq(s, "float16") || str_eq(s, "half") {
            Some(Precision::FP16)
        } else if str_eq(s, "int8") || str_eq(s, "i8") {
            Some(Precision::INT8)
        } else if str_eq(s, "fp8") || str_eq(s, "float8") {
            Some(Precision::FP8)
        } else {
            None
        }
    }

    /// Parses a precision name case-insensitively (through Unicode
    /// lowercasing); an unknown name is a configuration error that quotes
    /// the lowercased name.
    pub fn parse(s: &str) -> (r: Result<Precision, MiddlewareError>)
        ensures
            is_ascii_text(s@) ==> unicode_lowercase(s@) == ascii_lower(s@),
            match precision_for_name(unicode_lowercase(s@)) {
                Some(p) => r == Ok::<Precision, MiddlewareError>(p),
                None => r matches Err(e) && e@ == ErrorView::ConfigError(
                    "Unknown precision '"@ + unicode_lowercase(s@)
                        + "'. Expected: fp32, fp16, int8, fp8"@,
                ),
            },
    {
        let lower = to_lowercase(s);
        match Precision::from_lowercase_name(lower.as_str()) {
            Some(p) => Ok(p),
            None => Err(
                MiddlewareError::ConfigError(
                    concat3(
                        "Unknown precision '",
                        lower.as_str(),
                        "'. Expected: fp32, fp16, int8, fp8",
                    ),
                ),
            ),
        }
    }
}

impl core::str::FromStr for Precision {
    type Err = MiddlewareError;

    fn from_str(s: &str) -> (r: Result<Precision, MiddlewareError>)
        ensures
            is_ascii_text(s@) ==> unicode_lowercase(s@) == ascii_lower(s@),
            match precision_for_name(unicode_lowercase(s@)) {
                Some(p) => r == Ok::<Precision, MiddlewareError>(p),
                None => r matches Err(e) && e@ == ErrorView::ConfigError(
                    "Unknown precision '"@ + unicode_lowercase(s@)
                        + "'. Expected: fp32, fp16, int8, fp8"@,
                ),
            },
    {
        Precision::parse(s)
    }
}

/// Default backend name: hardware detection chooses.
pub fn default_backend() -> (s: String)
    ensures
        s@ == "auto"@,
{
    String::from_str("auto")
}

/// Default number of warmup runs.
pub fn default_warmup() -> (n: usize)
    ensures
        n == 3,
{
    3
}

/// Default gRPC listen address.
pub fn default_grpc_address() -> (s: String)
    ensures
        s@ == "127.0.0.1:50051"@,
{
    String::from_str("127.0.0.1:50051")
}

/// A copy of an optional text.
pub fn clone_opt_string(o: &Option<String>) -> (r: Option<String>)
    ensures
        r == *o,
{
    match o {
        Some(s) => Some(s.clone()),
        None => None,
    }
}

/// Top-level configuration passed to `initialize`.
#[derive(Debug)]
pub struct MiddlewareConfig {
    /// Preferred backend name (`"nvidia"`, `"qualcomm"`, `"ti"`, `"cpu"`, or
    /// `"auto"`).
    pub backend: String,
    /// Requested precision mode.
    pub precision: Precision,
    /// Number of warmup runs before timing begins.
    pub warmup_runs: usize,
    /// Verbose logging.
    pub debug: bool,
    /// Optional class-label file (one label per line).
    pub labels_path: Option<String>,
    /// Optional model file to load.
    pub model_path: Option<String>,
    /// gRPC listen address.
    pub grpc_address: String,
}

impl Clone for MiddlewareConfig {
    fn clone(&self) -> (c: MiddlewareConfig)
        ensures
            c == *self,
    {
        MiddlewareConfig {
            backend: self.backend.clone(),
            precision: self.precision,
            warmup_runs: self.warmup_runs,
            debug: self.debug,
            labels_path: clone_opt_string(&self.labels_path),
            model_path: clone_opt_string(&self.model_path),
            grpc_address: self.grpc_address.clone(),
        }
    }
}

impl Default for MiddlewareConfig {
    fn default() -> (c: MiddlewareConfig)
        ensures
            c.backend@ == "auto"@,
            c.precision == Precision::FP32,
            c.warmup_runs == 3,
            !c.debug,
            c.labels_path is None,
            c.model_path is None,
            c.grpc_address@ == "127.0.0.1:50051"@,
    {
        MiddlewareConfig {
            backend: default_backend(),
            precision: Precision::FP32,
            warmup_runs: default_warmup(),
            debug: false,
            labels_path: None,
            model_path: None,
            grpc_address: default_grpc_address(),
        }
    }
}

/// Metadata for one tensor (input or output) of a model.
#[derive(Debug)]
pub struct TensorMeta {
    /// Tensor name from the model graph.
    pub name: String,
    /// Shape dimensions; -1 means dynamic.
    pub shape: Vec<i64>,
    /// Element data type (e.g. "float32").
    pub dtype: String,
}

/// Model metadata extracted from a model file.
#[derive(Debug)]
pub struct ModelMetadata {
    pub name: String,
    pub inputs: Vec<TensorMeta>,
    pub outputs: Vec<TensorMeta>,
    /// Total number of parameters (0 if unknown).
    pub num_parameters: u64,
}

impl Default for ModelMetadata {
    fn default() -> (m: ModelMetadata)
        ensures
            m.name@ == "unknown"@,
            m.inputs@.len() == 0,
            m.outputs@.len() == 0,
            m.num_parameters == 0,
    {
        ModelMetadata {
            name: String::from_str("unknown"),
            inputs: Vec::new(),
            outputs: Vec::new(),
            num_parameters: 0,
        }
    }
}

/// Both names of every precision parse back to it: its short name
/// (`"fp16"`) and its display name (`"FP16"`), being ASCII, lowercase to a
/// name that denotes it.
pub proof fn lemma_precision_names_round_trip(p: Precision)
    ensures
        is_ascii_text(short_name(p)),
        is_ascii_text(display_name(p)),
        precision_for_name(ascii_lower(short_name(p))) == Some(p),
        precision_for_name(ascii_lower(display_name(p))) == Some(p),
{
    reveal_strlit("fp32");
    reveal_strlit("fp16");
    reveal_strlit("int8");
    reveal_strlit("fp8");
    reveal_strlit("FP32");
    reveal_strlit("FP16");
    reveal_strlit("INT8");
    reveal_strlit("FP8");
    reveal_strlit("float32");
    reveal_strlit("float16");
    reveal_strlit("half");
    reveal_strlit("i8");
    reveal_strlit("float8");
    assert(ascii_lower(short_name(p)) =~= short_name(p));
    assert(ascii_lower(display_name(p)) =~= short_name(p));
    match p {
        Precision::FP32 => {},
        Precision::FP16 => {
            assert("fp16"@[2] != "fp32"@[2]);
        },
        Precision::INT8 => {
            assert("int8"@[0] != "fp32"@[0]);
            assert("int8"@[0] != "fp16"@[0]);
            assert("int8"@[0] != "half"@[0]);
        },
        Precision::FP8 => {},
    }
}

} // verus!
