//! Status lines of the on-device OTA install daemon.
//!
//! The daemon reports progress as one of
//! `idle | downloading | installing | success:<version> | error:<message>`.

use vstd::prelude::*;

use crate::text::{has_prefix, same_text, starts_with, trim, trim_bounds};

verus! {

/// Human wording for a daemon status line; `None` for `idle` or an unknown format.
pub open spec fn description(status: Seq<char>) -> Option<Seq<char>> {
    if status == "downloading"@ {
        Some("Downloading update…"@)
    } else if status == "installing"@ {
        Some("Installing update — do not power off."@)
    } else if has_prefix(status, "success:"@) {
        Some("Installed "@ + status.subrange("success:"@.len() as int, status.len() as int) + "."@)
    } else if has_prefix(status, "error:"@) {
        Some("Update failed: "@ + status.subrange("error:"@.len() as int, status.len() as int))
    } else {
        None
    }
}

/// Human wording for a raw daemon status line; `None` for `idle` (nothing to
/// show) or an unknown format.
pub fn describe(status: &str) -> (r: Option<String>)
    ensures
        match r {
            Some(text) => description(status@) == Some(text@),
            None => description(status@) is None,
        },
{
    if same_text(status, "downloading") {
        Some(String::from_str("Downloading update…"))
    } else if same_text(status, "installing") {
        Some(String::from_str("Installing update — do not power off."))
    } else if starts_with(status, "success:") {
        let rest = status.substring_char("success:".unicode_len(), status.unicode_len());
        Some(String::from_str("Installed ").concat(rest).concat("."))
    } else if starts_with(status, "error:") {
        let rest = status.substring_char("error:".unicode_len(), status.unicode_len());
        Some(String::from_str("Update failed: ").concat(rest))
    } else {
        None
    }
}

/// Whether this status line means an install is still in flight.
pub open spec fn is_in_flight(status: Seq<char>) -> bool {
    status == "downloading"@ || status == "installing"@
}

/// Whether this status line means an install is still in flight.
pub fn in_flight(status: &str) -> (r: bool)
    ensures
        r == is_in_flight(status@),
{
    same_text(status, "downloading") || same_text(status, "installing")
}

/// The status line in the text of the daemon's status file: the text without
/// surrounding whitespace, or `None` when nothing is left.
pub fn status_from_text(text: &str) -> (r: Option<String>)
    ensures
        match r {
            Some(line) => line@ == trim(text@) && line@.len() > 0,
            None => trim(text@).len() == 0,
        },
{
    let (a, b) = trim_bounds(text);
    if a == b {
        return None;
    }
    Some(String::from_str(text.substring_char(a, b)))
}

/// An install in flight always has wording to show.
pub proof fn lemma_in_flight_is_described(status: Seq<char>)
    requires
        is_in_flight(status),
    ensures
        description(status) is Some,
{
}

/// `idle` has nothing to show.
pub proof fn lemma_idle_not_described()
    ensures
        description("idle"@) is None,
{
    reveal_strlit("idle");
    reveal_strlit("downloading");
    reveal_strlit("installing");
    reveal_strlit("success:");
    reveal_strlit("error:");
}

/// A finished install names its version, and a failure its message: for any
/// text after the prefix, `success:` gives "Installed <version>." and `error:`
/// gives "Update failed: <message>".
pub proof fn lemma_outcomes_name_their_detail(rest: Seq<char>)
    ensures
        description("success:"@ + rest) == Some("Installed "@ + rest + "."@),
        description("error:"@ + rest) == Some("Update failed: "@ + rest),
{
    reveal_strlit("success:");
    reveal_strlit("error:");
    reveal_strlit("downloading");
    reveal_strlit("installing");
    let a = "success:"@ + rest;
    let b = "error:"@ + rest;
    assert(a.subrange(0, 8) =~= "success:"@);
    assert(a.subrange(8, a.len() as int) =~= rest);
    assert(a[0] != "downloading"@[0]);
    assert(a[0] != "installing"@[0]);
    assert(b.subrange(0, 6) =~= "error:"@);
    assert(b.subrange(6, b.len() as int) =~= rest);
    assert(b[0] != "downloading"@[0]);
    assert(b[0] != "installing"@[0]);
    assert(b[0] != "success:"@[0]);
    assert(!has_prefix(b, "success:"@));
}

} // verus!
