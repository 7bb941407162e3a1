pub mod classifier;
