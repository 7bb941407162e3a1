//! Hardware-agnostic middleware for running ahead-of-time compiled inference
//! engines on edge accelerators: the lifecycle state machine, tensors and
//! buffers, backend adapters, hardware profiles and dependency checks, the
//! model optimizer's paths and command lines, the middleware facade and its
//! service helpers, metrics, classification labels, preprocessing
//! arithmetic, frame sources, evaluation and deployment builds, each with a
//! verified contract.

pub mod aot;
pub mod api;
pub mod backends;
pub mod evaluation;
pub mod hardware;
pub mod inference;
pub mod input;
pub mod lifecycle;
pub mod metrics;
pub mod postprocess;
pub mod preprocess;
pub mod utils;
