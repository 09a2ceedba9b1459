//! Decisions behind the testbed harness strip: turn signals, hazard lights,
//! and the hint shown when a full-screen window is blocked while moving.

use vstd::prelude::*;

use crate::sigma::windows;

verus! {

/// One turn-signal button pressed, given this side's lamp, the other side's
/// lamp and the blink phase: this side flips; switching it on switches the
/// other side off; the blink phase is lit whenever a side is now on, and
/// otherwise keeps its value. Returns (this side, other side, blink phase).
pub fn turn_pressed(this_on: bool, other_on: bool, lit: bool) -> (r: (bool, bool, bool))
    ensures
        r == (!this_on, if !this_on {
            false
        } else {
            other_on
        }, if !this_on || other_on {
            true
        } else {
            lit
        }),
{
    let on = !this_on;
    let other = if on {
        false
    } else {
        other_on
    };
    let blink = if on || other {
        true
    } else {
        lit
    };
    (on, other, blink)
}

/// The hazard button pressed, given the left and right lamps: with both on,
/// both go off and the blink phase goes dark; otherwise both go on, lit.
/// Returns (left, right, blink phase).
pub fn hazard_pressed(left_on: bool, right_on: bool) -> (r: (bool, bool, bool))
    ensures
        r == (!(left_on && right_on), !(left_on && right_on), !(left_on && right_on)),
{
    let both = left_on && right_on;
    (!both, !both, !both)
}

/// Whether the dashboard hints that navigation is blocked: the bike is moving
/// and a full-screen window is shown.
pub fn nav_blocked(stopped: bool, window: i32) -> (r: bool)
    ensures
        r == (!stopped && window > windows::PANEL_MAX),
{
    !stopped && window > windows::PANEL_MAX
}

} // verus!
