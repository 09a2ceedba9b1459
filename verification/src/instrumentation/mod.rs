//! The first-generation dashboard helpers: speed readout and display sizing.

pub mod dashboard;
pub mod display;
