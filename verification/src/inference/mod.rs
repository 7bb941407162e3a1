pub mod traits;
pub mod buffer_manager;
pub mod engine_manager;
pub mod optimizer;
