//! Display modes: day / dusk / night.
//!
//! Selected by `SIGMA_DISPLAY_MODE` (preferred) or `SIGMA_UI_TONE` (alias):
//!   night (default) · dusk · day

use vstd::prelude::*;

use crate::text::{ascii_lower_seq, eq_lower_at, trim, trim_bounds, trim_end, trim_start};

verus! {

#[derive(Clone, Copy, Debug, PartialEq, Eq, Structural)]
pub enum DisplayMode {
    Day,
    Dusk,
    Night,
}

/// The mode a setting names: its trimmed, ASCII-lowercased text is looked up
/// among the day and dusk names; anything else means night.
pub open spec fn mode_named(s: Seq<char>) -> DisplayMode {
    let t = ascii_lower_seq(trim(s));
    if t == "day"@ || t == "bright"@ || t == "daylight"@ {
        DisplayMode::Day
    } else if t == "dusk"@ || t == "twilight"@ || t == "normal"@ || t == "default"@ || t == "std"@ {
        DisplayMode::Dusk
    } else {
        DisplayMode::Night
    }
}

/// The name of a mode.
pub open spec fn mode_name(m: DisplayMode) -> Seq<char> {
    match m {
        DisplayMode::Day => "day"@,
        DisplayMode::Dusk => "dusk"@,
        DisplayMode::Night => "night"@,
    }
}

impl DisplayMode {
    pub fn parse(s: &str) -> (m: Self)
        ensures
            m == mode_named(s@),
    {
        let (a, b) = trim_bounds(s);
        if eq_lower_at(s, a, b, "day") || eq_lower_at(s, a, b, "bright") || eq_lower_at(
            s,
            a,
            b,
            "daylight",
        ) {
            DisplayMode::Day
        } else if eq_lower_at(s, a, b, "dusk") || eq_lower_at(s, a, b, "twilight") || eq_lower_at(
            s,
            a,
            b,
            "normal",
        ) || eq_lower_at(s, a, b, "default") || eq_lower_at(s, a, b, "std") {
            DisplayMode::Dusk
        } else {
            DisplayMode::Night
        }
    }

    pub fn as_str(self) -> (r: &'static str)
        ensures
            r@ == mode_name(self),
    {
        match self {
            DisplayMode::Day => "day",
            DisplayMode::Dusk => "dusk",
            DisplayMode::Night => "night",
        }
    }
}

/// The mode chosen by the display-mode setting, else by the tone alias, else night.
pub open spec fn mode_from(display_mode: Option<Seq<char>>, ui_tone: Option<Seq<char>>) -> DisplayMode {
    match display_mode {
        Some(v) => mode_named(v),
        None => match ui_tone {
            Some(v) => mode_named(v),
            None => DisplayMode::Night,
        },
    }
}

/// The display mode for the two settings (`None` when unset): the preferred
/// display-mode setting wins over the tone alias; night when neither is set.
pub fn mode_from_settings(display_mode: Option<&str>, ui_tone: Option<&str>) -> (m: DisplayMode)
    ensures
        m == mode_from(
            match display_mode {
                Some(v) => Some(v@),
                None => None,
            },
            match ui_tone {
                Some(v) => Some(v@),
                None => None,
            },
        ),
{
    if let Some(v) = display_mode {
        return DisplayMode::parse(v);
    }
    if let Some(v) = ui_tone {
        return DisplayMode::parse(v);
    }
    DisplayMode::Night
}

/// A mode's own name reads back as that mode.
pub proof fn lemma_name_parses_back(m: DisplayMode)
    ensures
        mode_named(mode_name(m)) == m,
{
    reveal_strlit("day");
    reveal_strlit("dusk");
    reveal_strlit("night");
    reveal_strlit("bright");
    reveal_strlit("daylight");
    reveal_strlit("twilight");
    reveal_strlit("normal");
    reveal_strlit("default");
    reveal_strlit("std");
    let s = mode_name(m);
    assert(trim_start(s) == s);
    assert(trim_end(s) == s);
    assert(ascii_lower_seq(s) =~= s);
}

} // verus!
