//! Telemetry subscriber messages.

use vstd::prelude::*;

verus! {

/// The message for a failed connection to the telemetry socket at `path`
/// (as displayed) with the error `err` (as displayed).
pub fn connect_error(path: &str, err: &str) -> (msg: String)
    ensures
        msg@ == "telemetry: could not connect to "@ + path@ + ": "@ + err@,
{
    String::from_str("telemetry: could not connect to ").concat(path).concat(": ").concat(err)
}

} // verus!
