//! Sigma Racer instrument cluster: connectivity menus, window navigation,
//! update and OTA flows, display presets and telemetry envelopes, with
//! their behaviour stated and proved.

pub mod instrumentation;
pub mod sigma;
pub mod testbed;
pub mod text;
pub mod ui;
pub mod co_pilot;
pub mod wingman;
pub mod vehicle_service;
