//! Speed readout helpers bound to a dashboard instance.

use vstd::prelude::*;

use crate::text::{decimal, digit_char, digit_text};
use crate::ui::{Dashboard, SpeedProps};

verus! {

/// The speed shown: the value clamped into `0..=999`.
pub open spec fn shown_speed(speed: i32) -> int {
    if speed < 0 {
        0
    } else if speed > 999 {
        999
    } else {
        speed as int
    }
}

/// The hundreds, tens and ones cells for a speed: a cell stays empty left of
/// the first significant digit, and a standing bike shows a lone `0` in the
/// tens cell.
pub open spec fn digit_cells(speed: i32) -> (Seq<char>, Seq<char>, Seq<char>) {
    let s = shown_speed(speed);
    (
        if s >= 100 {
            seq![digit_char(s / 100)]
        } else {
            Seq::empty()
        },
        if s == 0 {
            seq!['0']
        } else if s >= 10 {
            seq![digit_char((s / 10) % 10)]
        } else {
            Seq::empty()
        },
        if s == 0 {
            Seq::empty()
        } else {
            seq![digit_char(s % 10)]
        },
    )
}

pub fn speed_digits(speed: i32) -> (r: (String, String, String))
    ensures
        (r.0@, r.1@, r.2@) == digit_cells(speed),
{
    let s = if speed < 0 {
        0
    } else if speed > 999 {
        999
    } else {
        speed
    };
    let h = s / 100;
    let t = (s / 10) % 10;
    let o = s % 10;
    let hs = if s >= 100 {
        digit_text(h)
    } else {
        String::new()
    };
    let ts = if s == 0 {
        let z = String::from_str("0");
        proof {
            reveal_strlit("0");
        }
        assert(z@ =~= seq!['0']);
        z
    } else if s >= 10 {
        digit_text(t)
    } else {
        String::new()
    };
    let os = if s == 0 {
        String::new()
    } else {
        digit_text(o)
    };
    (hs, ts, os)
}

/// Update speed value and digit cells (0–999 km/h).
pub fn set_speed_readout(ui: &mut Dashboard, speed: i32)
    ensures
        final(ui).speed.speed == speed,
        (final(ui).speed.hundreds@, final(ui).speed.tens@, final(ui).speed.ones@) == digit_cells(
            speed,
        ),
        final(ui).current_window == old(ui).current_window,
        final(ui).camera_front == old(ui).camera_front,
        final(ui).conn == old(ui).conn,
        final(ui).updates == old(ui).updates,
{
    let (h, t, o) = speed_digits(speed);
    ui.speed = SpeedProps { speed, hundreds: h, tens: t, ones: o };
}

/// Read left to right, the three cells spell the shown speed in decimal,
/// without leading zeros.
pub proof fn lemma_cells_spell_speed(speed: i32)
    ensures
        digit_cells(speed).0 + digit_cells(speed).1 + digit_cells(speed).2 == decimal(
            shown_speed(speed) as nat,
        ),
{
    let s = shown_speed(speed);
    let n = s as nat;
    reveal_with_fuel(decimal, 3);
    if s == 0 {
        assert(digit_char(0) == '0');
        assert(digit_cells(speed).0 + digit_cells(speed).1 + digit_cells(speed).2 =~= decimal(n));
    } else if s < 10 {
        assert(digit_cells(speed).0 + digit_cells(speed).1 + digit_cells(speed).2 =~= decimal(n));
    } else if s < 100 {
        assert(n / 10 < 10);
        assert((s / 10) % 10 == s / 10);
        assert(decimal(n / 10) == seq![digit_char((n / 10) as int)]);
        assert(decimal(n) == decimal(n / 10).push(digit_char((n % 10) as int)));
        assert(digit_cells(speed).0 + digit_cells(speed).1 + digit_cells(speed).2 =~= decimal(n));
    } else {
        assert(n / 10 >= 10);
        assert((n / 10) / 10 == n / 100);
        assert((n / 10) % 10 == (s / 10) % 10);
        assert(n / 100 < 10);
        assert(decimal((n / 10) / 10) == seq![digit_char(((n / 10) / 10) as int)]);
        assert(decimal(n / 10) == decimal((n / 10) / 10).push(digit_char(((n / 10) % 10) as int)));
        assert(decimal(n / 10) =~= seq![digit_char(s / 100), digit_char((s / 10) % 10)]);
        assert(decimal(n) == decimal(n / 10).push(digit_char((n % 10) as int)));
        assert(digit_cells(speed).0 + digit_cells(speed).1 + digit_cells(speed).2 =~= decimal(n));
    }
}

} // verus!
