//! Telemetry subscriber decisions: which socket to use, what to make of a read
//! line, and the connection error message.

use vstd::prelude::*;

use crate::wingman::protocol::SOCKET_PATH;

verus! {

/// Upper bound on a single NDJSON frame. Anything longer is treated as corrupt,
/// dropped, and the stream is resynced at the next newline.
pub const MAX_LINE_BYTES: usize = 65536;

/// Bound on queued messages before the reader starts dropping frames.
pub const CHANNEL_CAPACITY: usize = 512;

/// What the reader does with the text it has buffered after a read.
#[derive(Debug, Clone, Copy, PartialEq, Eq, Structural)]
pub enum LineStep {
    /// The frame is not complete yet: keep it and read on.
    Wait,
    /// The frame grew past the bound: drop it as corrupt and read on, so the
    /// stream resyncs at the next newline.
    Discard,
    /// A full frame within the bound, ending in a newline: parse it, then
    /// start a new one.
    Parse,
}

/// The reader's decision for a buffered line of `bytes` bytes: anything over
/// the bound is dropped, complete or not; a complete frame within the bound
/// is parsed; an incomplete one waits for more input.
pub open spec fn step_for(line: Seq<char>, bytes: nat) -> LineStep {
    if bytes > MAX_LINE_BYTES {
        LineStep::Discard
    } else if line.len() > 0 && line.last() == '\n' {
        LineStep::Parse
    } else {
        LineStep::Wait
    }
}

/// The reader's decision for the text buffered so far.
pub fn line_step(line: &str) -> (r: LineStep)
    ensures
        r == step_for(line@, line.len() as nat),
{
    if line.len() > MAX_LINE_BYTES {
        return LineStep::Discard;
    }
    let n = line.unicode_len();
    if n > 0 && line.get_char(n - 1) == '\n' {
        LineStep::Parse
    } else {
        LineStep::Wait
    }
}

/// The socket to subscribe to: the first of the two socket settings that is
/// set and non-empty, else the default path.
pub open spec fn socket_for(wingman: Option<Seq<char>>, co_pilot: Option<Seq<char>>) -> Seq<char> {
    match wingman {
        Some(v) if v.len() > 0 => v,
        _ => match co_pilot {
            Some(v) if v.len() > 0 => v,
            _ => SOCKET_PATH@,
        },
    }
}

/// The socket path for the Wingman and the Co-Pilot socket settings (each
/// `None` when unset).
pub fn socket_from_settings(wingman: Option<&str>, co_pilot: Option<&str>) -> (path: String)
    ensures
        path@ == socket_for(
            match wingman {
                Some(v) => Some(v@),
                None => None,
            },
            match co_pilot {
                Some(v) => Some(v@),
                None => None,
            },
        ),
{
    if let Some(v) = wingman {
        if !v.is_empty() {
            return String::from_str(v);
        }
    }
    if let Some(v) = co_pilot {
        if !v.is_empty() {
            return String::from_str(v);
        }
    }
    String::from_str(SOCKET_PATH)
}

/// The socket choice: a set, non-empty Wingman setting wins; failing that, a
/// set, non-empty Co-Pilot setting; failing both, the default path.
pub proof fn lemma_socket_precedence(wingman: Option<Seq<char>>, co_pilot: Option<Seq<char>>)
    ensures
        wingman is Some && wingman.unwrap().len() > 0 ==> socket_for(wingman, co_pilot)
            == wingman.unwrap(),
        !(wingman is Some && wingman.unwrap().len() > 0) && co_pilot is Some
            && co_pilot.unwrap().len() > 0 ==> socket_for(wingman, co_pilot) == co_pilot.unwrap(),
        !(wingman is Some && wingman.unwrap().len() > 0) && !(co_pilot is Some
            && co_pilot.unwrap().len() > 0) ==> socket_for(wingman, co_pilot) == SOCKET_PATH@,
{
}

/// The message for a failed connection to the telemetry socket at `path`
/// (as displayed) with the error `err` (as displayed).
pub fn connect_error(path: &str, err: &str) -> (msg: String)
    ensures
        msg@ == "telemetry: could not connect to "@ + path@ + ": "@ + err@,
{
    String::from_str("telemetry: could not connect to ").concat(path).concat(": ").concat(err)
}

} // verus!
