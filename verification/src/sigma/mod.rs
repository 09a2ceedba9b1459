//! The reusable instrument-cluster library: menus, focus models, presets.

pub mod buttons;
pub mod camera;
pub mod connectivity;
pub mod display;
pub mod ota;
pub mod theme;
pub mod updates;
pub mod windows;
