//! The vehicle service's publishing decisions: which envelope a sample tick
//! sends, when a heartbeat is due, under which sequence numbers, and how flag
//! settings read.

use vstd::prelude::*;

use crate::text::same_text;

verus! {

/// Age after which an unchanged sample still sends a full snapshot.
pub const SNAPSHOT_AFTER_MS: u64 = 200;

/// The envelope a sample tick sends.
#[derive(Debug, Clone, Copy, PartialEq, Eq, Structural)]
pub enum SampleMessage {
    /// The values that changed since the last update.
    SignalUpdate,
    /// The full state.
    Snapshot,
}

/// What a sample tick sends, and under which sequence number: changed values
/// go out as a signal update; with nothing changed, a full snapshot goes out
/// once the sample is old enough; otherwise nothing is sent. Every envelope
/// sent takes the next sequence number.
pub open spec fn sample_send(seq: u64, patch_is_empty: bool, sample_age_ms: u64) -> Option<(SampleMessage, u64)> {
    if !patch_is_empty {
        Some((SampleMessage::SignalUpdate, (seq + 1) as u64))
    } else if sample_age_ms >= SNAPSHOT_AFTER_MS {
        Some((SampleMessage::Snapshot, (seq + 1) as u64))
    } else {
        None
    }
}

/// The sample tick's decision for the last sequence number sent, whether the
/// computed patch is empty and how old the sample is.
pub fn sample_action(seq: u64, patch_is_empty: bool, sample_age_ms: u64) -> (r: Option<(SampleMessage, u64)>)
    requires
        seq < u64::MAX,
    ensures
        r == sample_send(seq, patch_is_empty, sample_age_ms),
{
    if !patch_is_empty {
        Some((SampleMessage::SignalUpdate, seq + 1))
    } else if sample_age_ms >= SNAPSHOT_AFTER_MS {
        Some((SampleMessage::Snapshot, seq + 1))
    } else {
        None
    }
}

/// How often a heartbeat is sent.
pub const HEARTBEAT_EVERY_MS: u64 = 1000;

/// The sequence number of the heartbeat due after `since_heartbeat_ms`
/// milliseconds without one: the next number once a second has passed,
/// none before.
pub open spec fn heartbeat_send(seq: u64, since_heartbeat_ms: u64) -> Option<u64> {
    if since_heartbeat_ms >= HEARTBEAT_EVERY_MS {
        Some((seq + 1) as u64)
    } else {
        None
    }
}

/// The heartbeat decision for the last sequence number sent and the time since
/// the last heartbeat.
pub fn heartbeat_action(seq: u64, since_heartbeat_ms: u64) -> (r: Option<u64>)
    requires
        seq < u64::MAX,
    ensures
        r == heartbeat_send(seq, since_heartbeat_ms),
{
    if since_heartbeat_ms >= HEARTBEAT_EVERY_MS {
        Some(seq + 1)
    } else {
        None
    }
}

/// Whether a flag setting is on: exactly `1`, `true`, `TRUE` or `yes`.
pub open spec fn flag_on(value: Option<Seq<char>>) -> bool {
    match value {
        Some(v) => v == "1"@ || v == "true"@ || v == "TRUE"@ || v == "yes"@,
        None => false,
    }
}

/// Whether a flag setting (`None` when unset) is on.
pub fn env_flag(value: Option<&str>) -> (r: bool)
    ensures
        r == flag_on(
            match value {
                Some(v) => Some(v@),
                None => None,
            },
        ),
{
    match value {
        Some(v) => same_text(v, "1") || same_text(v, "true") || same_text(v, "TRUE") || same_text(
            v,
            "yes",
        ),
        None => false,
    }
}

} // verus!
