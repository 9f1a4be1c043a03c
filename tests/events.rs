use janus_conference_logger::level::Severity;
use janus_conference_logger::message::Message;
use janus_conference_logger::tags::SourceWithTags;
use janus_conference_logger::timestamp::{format_timestamp, split_micros};

fn keys(v: &serde_json::Value) -> Vec<String> {
    let mut k: Vec<String> = v.as_object().unwrap().keys().cloned().collect();
    k.sort();
    k
}

fn record(ts: &str, line: &str) -> String {
    Message::new(0, line).to_event_with_ts(ts.to_string()).to_json()
}

#[test]
fn split_micros_exact_values() {
    assert_eq!(split_micros(0), (0, 0));
    assert_eq!(split_micros(1_600_000_000_000_000), (1_600_000_000, 0));
    assert_eq!(split_micros(1_500_001), (1, 500_001_000));
    assert_eq!(split_micros(-1), (-1, 999_999_000));
    assert_eq!(split_micros(-1_000_000), (-1, 0));
    assert_eq!(split_micros(i64::MIN).1 % 1000, 0);
    let m = Message::new(2_000_003, "x");
    assert_eq!(m.timestamp(), (2, 3000));
}

#[test]
fn epoch_formats_as_epoch() {
    let t = format_timestamp(0);
    let parsed = chrono::DateTime::parse_from_rfc3339(&t).unwrap();
    assert_eq!(parsed.timestamp(), 0);
    assert_eq!(parsed.timestamp_subsec_nanos(), 0);
}

#[test]
fn timestamp_format_is_deterministic_and_has_offset() {
    for t in [0i64, 1, -1, 1_600_000_000_123_456, -86_400_000_000] {
        let a = format_timestamp(t);
        assert_eq!(a, format_timestamp(t));
        let parsed = chrono::DateTime::parse_from_rfc3339(&a).unwrap();
        let (secs, nanos) = split_micros(t);
        assert_eq!(parsed.timestamp(), secs);
        assert_eq!(parsed.timestamp_subsec_nanos(), nanos);
    }
}

#[test]
fn timestamp_out_of_range_is_empty() {
    assert_eq!(format_timestamp(i64::MAX), "");
}

#[test]
fn end_to_end_error_core_line() {
    let m = Message::new(1_600_000_000_000_000, "[ERR] [7] something failed");
    let e = m.to_json_message();
    assert_eq!(e.level, Severity::Error);
    let text = e.to_json();
    assert!(!text.contains('\n'));
    let v: serde_json::Value = serde_json::from_str(&text).unwrap();
    assert_eq!(v["level"], "ERRO");
    assert_eq!(v["source"], "core");
    assert_eq!(v["handle_id"], 7);
    assert_eq!(v["msg"], "something failed");
    assert_eq!(keys(&v), vec!["handle_id", "level", "msg", "source", "ts"]);
    let ts = chrono::DateTime::parse_from_rfc3339(v["ts"].as_str().unwrap()).unwrap();
    assert_eq!(ts.timestamp(), 1_600_000_000);
}

#[test]
fn exact_record_text() {
    assert_eq!(
        record("T", "  hello \n"),
        "{\"ts\":\"T\",\"level\":\"INFO\",\"source\":\"core\",\"msg\":\"hello\"}"
    );
    assert_eq!(
        record("T", "[WARN] [12] up"),
        "{\"ts\":\"T\",\"level\":\"WARN\",\"source\":\"core\",\"handle_id\":12,\"msg\":\"up\"}"
    );
}

#[test]
fn text_members_are_escaped() {
    let text = record("T", "say \"hi\"\\");
    assert_eq!(
        text,
        "{\"ts\":\"T\",\"level\":\"INFO\",\"source\":\"core\",\"msg\":\"say \\\"hi\\\"\\\\\"}"
    );
    let v: serde_json::Value = serde_json::from_str(&text).unwrap();
    assert_eq!(v["msg"], "say \"hi\"\\");
}

#[test]
fn round_trip_conference_only_present_members() {
    let text = record("T", "[CONFERENCE {\"rtc_id\":\"abc\",\"handle_id\":3}] joined");
    let v: serde_json::Value = serde_json::from_str(&text).unwrap();
    assert_eq!(v["source"], "conference");
    assert_eq!(v["rtc_id"], "abc");
    assert_eq!(v["handle_id"], 3);
    assert_eq!(v["msg"], "joined");
    assert_eq!(keys(&v), vec!["handle_id", "level", "msg", "rtc_id", "source", "ts"]);
}

#[test]
fn round_trip_conference_without_tags() {
    let text = record("T", "[CONFERENCE {}] bare");
    let v: serde_json::Value = serde_json::from_str(&text).unwrap();
    assert_eq!(v["source"], "conference");
    assert_eq!(keys(&v), vec!["level", "msg", "source", "ts"]);
}

#[test]
fn round_trip_unknown_source() {
    let m = Message::new(0, "[WARN] [CONFERENCE {\"handle_id\":true}]  tail  ");
    let e = m.to_event_with_ts("T".to_string());
    match &e.source_with_tags {
        SourceWithTags::Unknown { logger_error } => assert_eq!(
            logger_error,
            "Failed to parse conference tags '{\"handle_id\":true}': invalid value for member `handle_id`"
        ),
        _ => panic!("expected an unknown source"),
    }
    assert_eq!(e.msg, "[CONFERENCE {\"handle_id\":true}]  tail");
    let v: serde_json::Value = serde_json::from_str(&e.to_json()).unwrap();
    assert_eq!(v["source"], "unknown");
    assert_eq!(v["level"], "WARN");
    assert_eq!(keys(&v), vec!["level", "logger_error", "msg", "source", "ts"]);
}

#[test]
fn unknown_source_for_huge_handle() {
    let e = Message::new(0, "[99999999999999999999999] x").to_event_with_ts("T".to_string());
    match &e.source_with_tags {
        SourceWithTags::Unknown { logger_error } => {
            assert_eq!(logger_error, "Failed to parse handle id")
        }
        _ => panic!("expected an unknown source"),
    }
    assert_eq!(e.msg, "[99999999999999999999999] x");
}

#[test]
fn timestamp_range_edges() {
    let first = -8_334_601_228_800_000_000i64;
    let last = 8_210_266_876_799_999_999i64;
    assert!(!format_timestamp(first).is_empty());
    assert_eq!(format_timestamp(first - 1), "");
    assert!(!format_timestamp(last).is_empty());
    assert_eq!(format_timestamp(last + 1), "");
    assert_eq!(format_timestamp(i64::MIN), "");
}

#[test]
fn control_characters_are_escaped() {
    let text = record("T", "a\u{1}b\u{8}c\u{1f}d\u{7f}\u{e9}");
    assert_eq!(
        text,
        "{\"ts\":\"T\",\"level\":\"INFO\",\"source\":\"core\",\"msg\":\"a\\u0001b\\bc\\u001fd\u{7f}\u{e9}\"}"
    );
}
