//! Display sizing: fixed panel vs kiosk fullscreen.

use vstd::prelude::*;

use crate::sigma::display::{kiosk_from, kiosk_enabled};

verus! {

pub const PANEL_WIDTH: u32 = 800;
pub const PANEL_HEIGHT: u32 = 480;

/// How the dashboard window should be presented on startup.
#[derive(Clone, Copy, Debug, PartialEq, Eq)]
pub struct DisplayConfig {
    /// Fixed window size (e.g. 800×480 virt panel). When set, fullscreen is skipped.
    pub fixed_size: Option<(u32, u32)>,
    /// Default kiosk/fullscreen when `SLINT_FULLSCREEN` is unset.
    pub default_kiosk: bool,
}

impl DisplayConfig {
    pub fn virt_panel() -> (c: Self)
        ensures
            c == (DisplayConfig { fixed_size: Some((PANEL_WIDTH, PANEL_HEIGHT)), default_kiosk: false }),
    {
        DisplayConfig { fixed_size: Some((PANEL_WIDTH, PANEL_HEIGHT)), default_kiosk: false }
    }

    pub fn desktop() -> (c: Self)
        ensures
            c == (DisplayConfig { fixed_size: None, default_kiosk: false }),
    {
        DisplayConfig { fixed_size: None, default_kiosk: false }
    }

    pub fn embedded(default_kiosk: bool) -> (c: Self)
        ensures
            c == (DisplayConfig { fixed_size: None, default_kiosk }),
    {
        DisplayConfig { fixed_size: None, default_kiosk }
    }
}

/// What to do with the window on startup.
#[derive(Clone, Copy, Debug, PartialEq, Eq)]
pub enum WindowAction {
    /// Size the window to exactly this many pixels, at the origin.
    Pin(u32, u32),
    /// Go fullscreen at the origin.
    Fullscreen,
    /// Leave the window as it is.
    Leave,
}

/// The policy: a panel size from the environment, else the configuration's
/// fixed size, pins the window; otherwise kiosk mode goes fullscreen.
pub open spec fn action_for(
    config: DisplayConfig,
    env_panel_size: Option<(u32, u32)>,
    fullscreen: Option<Seq<char>>,
) -> WindowAction {
    match env_panel_size {
        Some((w, h)) => WindowAction::Pin(w, h),
        None => match config.fixed_size {
            Some((w, h)) => WindowAction::Pin(w, h),
            None => if kiosk_from(
                crate::sigma::display::DisplayConfig {
                    fixed_size: config.fixed_size,
                    default_kiosk: config.default_kiosk,
                },
                fullscreen,
            ) {
                WindowAction::Fullscreen
            } else {
                WindowAction::Leave
            },
        },
    }
}

/// The window policy for a configuration, the panel size from the
/// environment and the fullscreen setting (each `None` when unset).
pub fn window_action(
    config: &DisplayConfig,
    env_panel_size: Option<(u32, u32)>,
    fullscreen: Option<&str>,
) -> (r: WindowAction)
    ensures
        r == action_for(
            *config,
            env_panel_size,
            match fullscreen {
                Some(v) => Some(v@),
                None => None,
            },
        ),
{
    let size = match env_panel_size {
        Some(s) => Some(s),
        None => config.fixed_size,
    };
    if let Some((w, h)) = size {
        return WindowAction::Pin(w, h);
    }
    let shared = crate::sigma::display::DisplayConfig {
        fixed_size: config.fixed_size,
        default_kiosk: config.default_kiosk,
    };
    if kiosk_enabled(&shared, fullscreen) {
        WindowAction::Fullscreen
    } else {
        WindowAction::Leave
    }
}

} // verus!
