//! Display sizing presets and the window policy they imply.

use vstd::prelude::*;

use crate::text::{ascii_lower_seq, eq_lower_at, parse_u32, parsed_u32, same_text};

verus! {

pub const PANEL_WIDTH: u32 = 800;
pub const PANEL_HEIGHT: u32 = 480;
/// Cluster face (480) + harness strip (~96).
pub const TESTBED_HEIGHT: u32 = 576;

/// How the dashboard window should be presented on startup.
#[derive(Clone, Copy, Debug, PartialEq, Eq)]
pub struct DisplayConfig {
    /// Fixed window size (e.g. 800×480 virt panel). When set, fullscreen is skipped.
    pub fixed_size: Option<(u32, u32)>,
    /// Default kiosk/fullscreen when `SLINT_FULLSCREEN` is unset.
    pub default_kiosk: bool,
}

impl DisplayConfig {
    pub fn virt_panel() -> (c: Self)
        ensures
            c == (DisplayConfig { fixed_size: Some((PANEL_WIDTH, PANEL_HEIGHT)), default_kiosk: false }),
    {
        DisplayConfig { fixed_size: Some((PANEL_WIDTH, PANEL_HEIGHT)), default_kiosk: false }
    }

    /// Desktop / virt testbed with the config harness under the cluster face.
    pub fn testbed() -> (c: Self)
        ensures
            c == (DisplayConfig { fixed_size: Some((PANEL_WIDTH, TESTBED_HEIGHT)), default_kiosk: false }),
    {
        DisplayConfig { fixed_size: Some((PANEL_WIDTH, TESTBED_HEIGHT)), default_kiosk: false }
    }

    /// Virt panel size but tall enough for the harness strip.
    pub fn testbed_virt_panel() -> (c: Self)
        ensures
            c == (DisplayConfig { fixed_size: Some((PANEL_WIDTH, TESTBED_HEIGHT)), default_kiosk: false }),
    {
        DisplayConfig { fixed_size: Some((PANEL_WIDTH, TESTBED_HEIGHT)), default_kiosk: false }
    }

    pub fn desktop() -> (c: Self)
        ensures
            c == (DisplayConfig { fixed_size: None, default_kiosk: false }),
    {
        DisplayConfig { fixed_size: None, default_kiosk: false }
    }

    /// Always the cluster panel size, paired with the physical pin in kiosk.
    pub fn embedded(default_kiosk: bool) -> (c: Self)
        ensures
            c == (DisplayConfig { fixed_size: Some((PANEL_WIDTH, PANEL_HEIGHT)), default_kiosk }),
    {
        DisplayConfig { fixed_size: Some((PANEL_WIDTH, PANEL_HEIGHT)), default_kiosk }
    }
}

/// Whether a fullscreen setting turns kiosk mode on: `1`, or `true` in any
/// ASCII case; the configuration's default when the setting is unset.
pub open spec fn kiosk_from(config: DisplayConfig, fullscreen: Option<Seq<char>>) -> bool {
    match fullscreen {
        Some(v) => v == "1"@ || ascii_lower_seq(v) == "true"@,
        None => config.default_kiosk,
    }
}

/// Whether kiosk (fullscreen) mode is on for this configuration and the
/// fullscreen setting (`None` when unset).
pub fn kiosk_enabled(config: &DisplayConfig, fullscreen: Option<&str>) -> (r: bool)
    ensures
        r == kiosk_from(
            *config,
            match fullscreen {
                Some(v) => Some(v@),
                None => None,
            },
        ),
{
    match fullscreen {
        Some(v) => {
            assert(v@.subrange(0, v@.len() as int) =~= v@);
            same_text(v, "1") || eq_lower_at(v, 0, v.unicode_len(), "true")
        },
        None => config.default_kiosk,
    }
}

/// What `window_plan` decides: `None` leaves the window to its content's
/// preferred size; `Some(kiosk)` fits the panel design into the window, going
/// fullscreen first when `kiosk`. A fixed window size skips fullscreen, so
/// kiosk mode only takes effect without one.
pub open spec fn plan_for(
    config: DisplayConfig,
    fullscreen: Option<Seq<char>>,
    pin_window: Option<Seq<char>>,
    env_panel_size: Option<(u32, u32)>,
) -> Option<bool> {
    let kiosk = kiosk_from(config, fullscreen);
    if config.fixed_size is Some {
        if kiosk || pin_window == Some("1"@) || env_panel_size is Some {
            Some(false)
        } else {
            None
        }
    } else if kiosk {
        Some(true)
    } else if env_panel_size is Some {
        Some(false)
    } else {
        None
    }
}

/// The window policy for a configuration and the fullscreen, pin-window and
/// panel-size settings (each `None` when unset).
pub fn window_plan(
    config: &DisplayConfig,
    fullscreen: Option<&str>,
    pin_window: Option<&str>,
    env_panel_size: Option<(u32, u32)>,
) -> (r: Option<bool>)
    ensures
        r == plan_for(
            *config,
            match fullscreen {
                Some(v) => Some(v@),
                None => None,
            },
            match pin_window {
                Some(v) => Some(v@),
                None => None,
            },
            env_panel_size,
        ),
{
    let kiosk = kiosk_enabled(config, fullscreen);
    let pinned = match pin_window {
        Some(v) => same_text(v, "1"),
        None => false,
    };
    if config.fixed_size.is_some() {
        if kiosk || pinned || env_panel_size.is_some() {
            return Some(false);
        }
        return None;
    }
    if kiosk {
        return Some(true);
    }
    if env_panel_size.is_some() {
        return Some(false);
    }
    None
}

/// A fixed window size is never switched to fullscreen.
pub proof fn lemma_fixed_size_skips_fullscreen(
    config: DisplayConfig,
    fullscreen: Option<Seq<char>>,
    pin_window: Option<Seq<char>>,
    env_panel_size: Option<(u32, u32)>,
)
    requires
        config.fixed_size is Some,
    ensures
        plan_for(config, fullscreen, pin_window, env_panel_size) != Some(true),
{
}

/// The panel size named by the width and height settings: both must be set,
/// parse as unsigned 32-bit numbers and be positive.
pub open spec fn panel_size_for(width: Option<Seq<char>>, height: Option<Seq<char>>) -> Option<(u32, u32)> {
    match (width, height) {
        (Some(w), Some(h)) => match (parsed_u32(w), parsed_u32(h)) {
            (Some(a), Some(b)) => if a > 0 && b > 0 {
                Some((a, b))
            } else {
                None
            },
            _ => None,
        },
        _ => None,
    }
}

/// The panel size for the width and height settings (each `None` when unset).
pub fn panel_size(width: Option<&str>, height: Option<&str>) -> (r: Option<(u32, u32)>)
    ensures
        r == panel_size_for(
            match width {
                Some(v) => Some(v@),
                None => None,
            },
            match height {
                Some(v) => Some(v@),
                None => None,
            },
        ),
{
    let (w, h) = match (width, height) {
        (Some(w), Some(h)) => (w, h),
        _ => return None,
    };
    let (a, b) = match (parse_u32(w), parse_u32(h)) {
        (Some(a), Some(b)) => (a, b),
        _ => return None,
    };
    if a > 0 && b > 0 {
        Some((a, b))
    } else {
        None
    }
}

} // verus!
