//! Wingman telemetry: NDJSON envelopes and the subscriber's decisions.

pub mod client;
pub mod protocol;
