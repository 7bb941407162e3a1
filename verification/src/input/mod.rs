pub mod camera;
pub mod provider;
