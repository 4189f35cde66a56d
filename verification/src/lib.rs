pub mod calibration;
pub mod generator;
pub mod instructions;
pub mod program_input;
mod rng;
