//! The desktop testbed harness: simulated radios, window navigation and the
//! harness strip's buttons.

pub mod connectivity_sim;
pub mod harness;
