pub mod public_api;
pub mod service;
