//! Riding-mode codes of the M7 draft CAN dictionary (`PerformanceMode` signal).

use vstd::prelude::*;

use crate::text::same_text;

verus! {

/// The riding-mode labels the dictionary names.
pub open spec fn is_mode_label(s: Seq<char>) -> bool {
    s == "RAIN"@ || s == "STD"@ || s == "SPORT"@ || s == "TRACK"@
}

/// The label of a raw mode code: 0 rain, 1 standard, 3 track, sport otherwise.
pub open spec fn label_for_code(code: u8) -> Seq<char> {
    if code == 0 {
        "RAIN"@
    } else if code == 1 {
        "STD"@
    } else if code == 3 {
        "TRACK"@
    } else {
        "SPORT"@
    }
}

/// The code sent for a riding-mode label: sport for anything unknown.
pub open spec fn code_for_label(label: Seq<char>) -> u8 {
    if label == "RAIN"@ {
        0
    } else if label == "STD"@ {
        1
    } else if label == "TRACK"@ {
        3
    } else {
        2
    }
}

/// The riding-mode label for a decoded frame: the signal's value description
/// when it is one of the dictionary's labels, else the label of the rounded
/// raw `code`.
pub fn performance_mode_label(code: u8, description: Option<&str>) -> (label: String)
    ensures
        label@ == match description {
            Some(d) => if is_mode_label(d@) {
                d@
            } else {
                label_for_code(code)
            },
            None => label_for_code(code),
        },
{
    if let Some(label) = description {
        if same_text(label, "RAIN") || same_text(label, "STD") || same_text(label, "SPORT")
            || same_text(label, "TRACK") {
            return String::from_str(label);
        }
    }
    let text = if code == 0 {
        "RAIN"
    } else if code == 1 {
        "STD"
    } else if code == 3 {
        "TRACK"
    } else {
        "SPORT"
    };
    String::from_str(text)
}

/// The raw code sent for a riding-mode label.
pub fn performance_mode_code(label: &str) -> (code: u8)
    ensures
        code == code_for_label(label@),
{
    if same_text(label, "RAIN") {
        0
    } else if same_text(label, "STD") {
        1
    } else if same_text(label, "TRACK") {
        3
    } else {
        2
    }
}

/// A riding mode survives encoding and decoding: a dictionary label comes
/// back as itself, any other label as sport.
pub proof fn lemma_label_round_trip(label: Seq<char>)
    ensures
        label_for_code(code_for_label(label)) == if is_mode_label(label) {
            label
        } else {
            "SPORT"@
        },
{
    reveal_strlit("RAIN");
    reveal_strlit("STD");
    reveal_strlit("SPORT");
    reveal_strlit("TRACK");
    assert("TRACK"@[0] != "SPORT"@[0]);
    assert("RAIN"@.len() != "STD"@.len());
}

/// A raw code survives decoding and encoding when it is one of the four the
/// dictionary defines (0 to 3).
pub proof fn lemma_code_round_trip(code: u8)
    requires
        code <= 3,
    ensures
        code_for_label(label_for_code(code)) == code,
{
    reveal_strlit("RAIN");
    reveal_strlit("STD");
    reveal_strlit("SPORT");
    reveal_strlit("TRACK");
    assert("TRACK"@[0] != "SPORT"@[0]);
    assert("RAIN"@.len() != "STD"@.len());
}

} // verus!
