pub mod profile;
pub mod detector;
pub mod dependency;
