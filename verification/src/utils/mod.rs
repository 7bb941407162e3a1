pub mod text;
pub mod errors;
pub mod paths;
pub mod logging;
