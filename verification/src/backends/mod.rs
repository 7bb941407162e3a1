pub mod simulated;
pub mod cpu;
pub mod nvidia;
pub mod qualcomm;
pub mod ti;
