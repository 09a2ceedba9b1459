//! Co-Pilot telemetry: connection messages and the performance-mode codes of the CAN dictionary.

pub mod can;
pub mod client;
