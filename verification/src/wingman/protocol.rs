//! NDJSON telemetry envelopes (vehicle-messages schema v0.1).

use std::collections::HashMap;

use vstd::prelude::*;

use crate::text::{is_digit, same_text};

verus! {

pub const PROTOCOL_VERSION: &'static str = "0.1";
pub const SOCKET_PATH: &'static str = "/run/sigma-racer-wingman/vehicle.sock";

/// Full snapshot rate when nothing changed (10 Hz per schema).
pub const SNAPSHOT_INTERVAL_MS: u64 = 100;

/// A JSON value carried in an envelope.
#[verifier::external_type_specification]
#[verifier::external_body]
pub struct ExJsonValue(serde_json::Value);

/// A JSON decoding error.
#[verifier::external_type_specification]
#[verifier::external_body]
pub struct ExJsonError(serde_json::Error);

/// One telemetry envelope.
#[derive(Debug, Clone)]
pub struct Message {
    pub version: String,
    pub msg: String,
    pub ts: String,
    pub seq: u64,
    pub data: Option<HashMap<String, serde_json::Value>>,
    pub event: Option<String>,
    pub vss: Option<String>,
    pub value: Option<serde_json::Value>,
    pub uptime_ms: Option<u64>,
}

/// Why an envelope line was refused.
#[derive(Debug)]
pub enum ParseError {
    Json(serde_json::Error),
    UnsupportedVersion(String),
    UnknownKind(String),
}

/// Whether `s` ends the way an RFC 3339 UTC time with milliseconds ends: a
/// dot, three digits, and the `Z` zone.
pub open spec fn ends_as_millis_utc(s: Seq<char>) -> bool {
    &&& s.len() >= 5
    &&& s[s.len() - 5] == '.'
    &&& is_digit(s[s.len() - 4])
    &&& is_digit(s[s.len() - 3])
    &&& is_digit(s[s.len() - 2])
    &&& s[s.len() - 1] == 'Z'
}

/// The current UTC time in RFC 3339 with milliseconds and a `Z` suffix.
///
/// Wraps `chrono::Utc::now` formatted by `DateTime::to_rfc3339_opts` with
/// millisecond seconds and `Z` allowed. The contract claims only the ending
/// that every outcome has: `.` and three millisecond digits, then `Z` (the
/// UTC offset is always zero). The date and time themselves depend on the
/// clock and are left unsaid.
#[verifier::external_body]
pub fn now_iso() -> (ts: String)
    ensures
        ends_as_millis_utc(ts@),
{
    chrono::Utc::now().to_rfc3339_opts(chrono::SecondsFormat::Millis, true)
}

/// The text of a JSON decoding error, as its `Display` writes it.
///
/// Wraps `<serde_json::Error as Display>::fmt`; nothing is stated of the text.
#[verifier::external_body]
fn json_error_text(err: &serde_json::Error) -> String {
    format!("{err}")
}

/// The envelope kinds the protocol defines.
pub open spec fn is_known_kind(kind: Seq<char>) -> bool {
    kind == "Snapshot"@ || kind == "SignalUpdate"@ || kind == "Heartbeat"@
}

impl Message {
    /// A signal-update envelope carrying the changed VSS values.
    pub fn signal_update(seq: u64, data: HashMap<String, serde_json::Value>) -> (m: Self)
        ensures
            m.version@ == PROTOCOL_VERSION@,
            m.msg@ == "SignalUpdate"@,
            ends_as_millis_utc(m.ts@),
            m.seq == seq,
            m.data == Some(data),
            m.event is None,
            m.vss is None,
            m.value is None,
            m.uptime_ms is None,
    {
        Message {
            version: String::from_str(PROTOCOL_VERSION),
            msg: String::from_str("SignalUpdate"),
            ts: now_iso(),
            seq,
            data: Some(data),
            event: None,
            vss: None,
            value: None,
            uptime_ms: None,
        }
    }

    /// A heartbeat envelope carrying the service uptime.
    pub fn heartbeat(seq: u64, uptime_ms: u64) -> (m: Self)
        ensures
            m.version@ == PROTOCOL_VERSION@,
            m.msg@ == "Heartbeat"@,
            ends_as_millis_utc(m.ts@),
            m.seq == seq,
            m.data is None,
            m.event is None,
            m.vss is None,
            m.value is None,
            m.uptime_ms == Some(uptime_ms),
    {
        Message {
            version: String::from_str(PROTOCOL_VERSION),
            msg: String::from_str("Heartbeat"),
            ts: now_iso(),
            seq,
            data: None,
            event: None,
            vss: None,
            value: None,
            uptime_ms: Some(uptime_ms),
        }
    }

    /// Accept a decoded envelope only if it speaks this protocol version and
    /// is of a known kind; a decoding failure is passed on as such.
    pub fn validate(parsed: Result<Message, serde_json::Error>) -> (r: Result<Message, ParseError>)
        ensures
            match parsed {
                Err(e) => r == Err::<Message, ParseError>(ParseError::Json(e)),
                Ok(m) => if m.version@ != PROTOCOL_VERSION@ {
                    r matches Err(ParseError::UnsupportedVersion(v)) && v == m.version
                } else if !is_known_kind(m.msg@) {
                    r matches Err(ParseError::UnknownKind(k)) && k@ == m.msg@
                } else {
                    r == Ok::<Message, ParseError>(m)
                },
            },
    {
        let msg = match parsed {
            Err(e) => return Err(ParseError::Json(e)),
            Ok(m) => m,
        };
        if !same_text(msg.version.as_str(), PROTOCOL_VERSION) {
            return Err(ParseError::UnsupportedVersion(msg.version));
        }
        let kind = msg.msg.as_str();
        if same_text(kind, "Snapshot") || same_text(kind, "SignalUpdate") || same_text(
            kind,
            "Heartbeat",
        ) {
            Ok(msg)
        } else {
            let other = String::from_str(kind);
            Err(ParseError::UnknownKind(other))
        }
    }

    /// The VSS values the envelope carries, if any.
    pub fn vss_data(&self) -> (r: Option<&HashMap<String, serde_json::Value>>)
        ensures
            match self.data {
                Some(d) => r == Some(&d),
                None => r is None,
            },
    {
        self.data.as_ref()
    }
}

impl ParseError {
    /// The human-readable text of the error.
    pub fn message(&self) -> (text: String)
        ensures
            self matches ParseError::UnsupportedVersion(v) ==> text@ == "unsupported protocol version "@ + v@,
            self matches ParseError::UnknownKind(k) ==> text@ == "unknown message kind "@ + k@,
    {
        match self {
            ParseError::Json(err) => json_error_text(err),
            ParseError::UnsupportedVersion(v) => String::from_str("unsupported protocol version ").concat(v.as_str()),
            ParseError::UnknownKind(kind) => String::from_str("unknown message kind ").concat(kind.as_str()),
        }
    }
}

} // verus!
