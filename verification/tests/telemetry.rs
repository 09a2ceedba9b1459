use std::collections::HashMap;

use sigma_racer::co_pilot::can::{performance_mode_code, performance_mode_label};
use sigma_racer::co_pilot::client as co_pilot_client;
use sigma_racer::vehicle_service::{env_flag, heartbeat_action, sample_action, SampleMessage};
use sigma_racer::wingman::client::{connect_error, line_step, socket_from_settings, LineStep};
use sigma_racer::wingman::protocol::{Message, ParseError, PROTOCOL_VERSION, SOCKET_PATH};

#[test]
fn connect_error_messages() {
    assert_eq!(
        connect_error("/run/x.sock", "No such file or directory (os error 2)"),
        "telemetry: could not connect to /run/x.sock: No such file or directory (os error 2)"
    );
    assert_eq!(
        co_pilot_client::connect_error("/tmp/s", "refused"),
        "telemetry: could not connect to /tmp/s: refused"
    );
}

#[test]
fn riding_mode_labels_and_codes() {
    assert_eq!(performance_mode_label(0, None), "RAIN");
    assert_eq!(performance_mode_label(1, None), "STD");
    assert_eq!(performance_mode_label(2, None), "SPORT");
    assert_eq!(performance_mode_label(3, None), "TRACK");
    assert_eq!(performance_mode_label(7, None), "SPORT");
    assert_eq!(performance_mode_label(0, Some("TRACK")), "TRACK");
    assert_eq!(performance_mode_label(1, Some("Other")), "STD");
    assert_eq!(performance_mode_code("RAIN"), 0);
    assert_eq!(performance_mode_code("STD"), 1);
    assert_eq!(performance_mode_code("SPORT"), 2);
    assert_eq!(performance_mode_code("TRACK"), 3);
    assert_eq!(performance_mode_code("rain"), 2);
}

#[test]
fn riding_mode_round_trip() {
    for label in ["RAIN", "STD", "SPORT", "TRACK"] {
        assert_eq!(performance_mode_label(performance_mode_code(label), None), label);
    }
    assert_eq!(performance_mode_label(performance_mode_code("CUSTOM"), None), "SPORT");
}

#[test]
fn reader_line_steps() {
    assert_eq!(line_step("{\"a\":1}\n"), LineStep::Parse);
    assert_eq!(line_step("{\"a\":"), LineStep::Wait);
    assert_eq!(line_step(""), LineStep::Wait);
    let long = "x".repeat(65537);
    assert_eq!(line_step(&long), LineStep::Discard);
    let edge = "x".repeat(65536);
    assert_eq!(line_step(&edge), LineStep::Wait);
    let long_frame = format!("{}\n", "x".repeat(65536));
    assert_eq!(line_step(&long_frame), LineStep::Discard);
    let edge_frame = format!("{}\n", "x".repeat(65535));
    assert_eq!(line_step(&edge_frame), LineStep::Parse);
}

#[test]
fn socket_settings() {
    assert_eq!(socket_from_settings(None, None), SOCKET_PATH);
    assert_eq!(socket_from_settings(Some(""), Some("/b")), "/b");
    assert_eq!(socket_from_settings(Some("/a"), Some("/b")), "/a");
    assert_eq!(socket_from_settings(Some(""), Some("")), SOCKET_PATH);
}

fn envelope(version: &str, kind: &str) -> Message {
    Message {
        version: version.to_string(),
        msg: kind.to_string(),
        ts: "t".to_string(),
        seq: 1,
        data: Some(HashMap::new()),
        event: None,
        vss: None,
        value: None,
        uptime_ms: None,
    }
}

#[test]
fn rejects_wrong_protocol_version() {
    let line = r#"{"version":"9.9","msg":"Snapshot","ts":"t","seq":1,"data":{}}"#;
    let value: serde_json::Value = serde_json::from_str(line).unwrap();
    let msg = Message {
        version: value["version"].as_str().unwrap().to_string(),
        msg: value["msg"].as_str().unwrap().to_string(),
        ts: value["ts"].as_str().unwrap().to_string(),
        seq: value["seq"].as_u64().unwrap(),
        data: Some(HashMap::new()),
        event: None,
        vss: None,
        value: None,
        uptime_ms: None,
    };
    match Message::validate(Ok(msg)) {
        Err(ParseError::UnsupportedVersion(v)) => assert_eq!(v, "9.9"),
        other => panic!("expected version error, got {other:?}"),
    }
}

#[test]
fn validation_of_envelopes() {
    match Message::validate(Ok(envelope("9.9", "Snapshot"))) {
        Err(ParseError::UnsupportedVersion(v)) => assert_eq!(v, "9.9"),
        other => panic!("expected version error, got {other:?}"),
    }
    match Message::validate(Ok(envelope("0.1", "Bogus"))) {
        Err(ParseError::UnknownKind(k)) => assert_eq!(k, "Bogus"),
        other => panic!("expected kind error, got {other:?}"),
    }
    for kind in ["Snapshot", "SignalUpdate", "Heartbeat"] {
        assert!(Message::validate(Ok(envelope("0.1", kind))).is_ok());
    }
    let bad = serde_json::from_str::<serde_json::Value>("{").unwrap_err();
    assert!(matches!(Message::validate(Err(bad)), Err(ParseError::Json(_))));
}

#[test]
fn error_texts() {
    assert_eq!(
        ParseError::UnsupportedVersion("9.9".to_string()).message(),
        "unsupported protocol version 9.9"
    );
    assert_eq!(
        ParseError::UnknownKind("X".to_string()).message(),
        "unknown message kind X"
    );
    let bad = serde_json::from_str::<serde_json::Value>("{").unwrap_err();
    let text = bad.to_string();
    assert_eq!(ParseError::Json(bad).message(), text);
}

#[test]
fn constructed_envelopes() {
    let hb = Message::heartbeat(7, 1500);
    assert_eq!(hb.version, PROTOCOL_VERSION);
    assert_eq!(hb.msg, "Heartbeat");
    assert_eq!(hb.seq, 7);
    assert_eq!(hb.uptime_ms, Some(1500));
    assert!(hb.data.is_none());
    assert!(hb.ts.ends_with('Z'));
    let mut data = HashMap::new();
    data.insert("Vehicle.Speed".to_string(), serde_json::Value::from(42));
    let up = Message::signal_update(8, data);
    assert_eq!(up.msg, "SignalUpdate");
    assert_eq!(up.vss_data().unwrap().len(), 1);
    assert!(hb.vss_data().is_none());
}

#[test]
fn sample_tick_decisions() {
    assert_eq!(sample_action(4, false, 0), Some((SampleMessage::SignalUpdate, 5)));
    assert_eq!(sample_action(4, true, 200), Some((SampleMessage::Snapshot, 5)));
    assert_eq!(sample_action(4, true, 199), None);
}

#[test]
fn heartbeat_every_second() {
    assert_eq!(heartbeat_action(9, 1000), Some(10));
    assert_eq!(heartbeat_action(9, 2500), Some(10));
    assert_eq!(heartbeat_action(9, 999), None);
}

#[test]
fn timestamps_end_in_millis_and_zulu() {
    let ts = Message::heartbeat(1, 0).ts;
    let c: Vec<char> = ts.chars().collect();
    let n = c.len();
    assert!(n >= 5);
    assert_eq!(c[n - 5], '.');
    assert!(c[n - 4..n - 1].iter().all(|d| d.is_ascii_digit()));
    assert_eq!(c[n - 1], 'Z');
}

#[test]
fn flag_settings() {
    assert!(env_flag(Some("1")));
    assert!(env_flag(Some("true")));
    assert!(env_flag(Some("TRUE")));
    assert!(env_flag(Some("yes")));
    assert!(!env_flag(Some("True")));
    assert!(!env_flag(None));
}
