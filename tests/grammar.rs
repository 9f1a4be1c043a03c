use janus_conference_logger::conference::{
    conference_tags_from_members, parse_conference_tags, split_conference, ConferenceTags,
    JsonScalar,
};
use janus_conference_logger::level::Severity;
use janus_conference_logger::message::Message;
use janus_conference_logger::tags::SourceWithTags;
use janus_conference_logger::text::trim;

fn conference(tags: &ConferenceTags) -> (Option<usize>, Option<&str>, Option<&str>, Option<&str>) {
    (
        tags.handle_id,
        tags.rtc_id.as_deref(),
        tags.agent_id.as_deref(),
        tags.transaction.as_deref(),
    )
}

#[test]
fn level_error_prefix() {
    let m = Message::new(0, "[ERR] boom");
    assert_eq!(m.extract_level(), (Severity::Error, "boom"));
}

#[test]
fn level_warn_prefix() {
    let m = Message::new(0, "[WARN] careful");
    assert_eq!(m.extract_level(), (Severity::Warn, "careful"));
}

#[test]
fn level_plain_line_is_info() {
    let m = Message::new(0, "plain text");
    assert_eq!(m.extract_level(), (Severity::Info, "plain text"));
}

#[test]
fn level_prefix_must_be_exact() {
    let m = Message::new(0, "[ERROR] x");
    assert_eq!(m.extract_level(), (Severity::Info, "[ERROR] x"));
    let m = Message::new(0, "[err] x");
    assert_eq!(m.extract_level(), (Severity::Info, "[err] x"));
    let m = Message::new(0, "[ERR]x");
    assert_eq!(m.extract_level(), (Severity::Info, "[ERR]x"));
}

#[test]
fn level_verbose_marker_is_info() {
    let m = Message::new(0, "[VERB] chatty");
    assert_eq!(m.extract_level(), (Severity::Info, "[VERB] chatty"));
}

#[test]
fn level_labels() {
    assert_eq!(Severity::Error.label(), "ERRO");
    assert_eq!(Severity::Warn.label(), "WARN");
    assert_eq!(Severity::Info.label(), "INFO");
}

#[test]
fn core_handle_id() {
    let (tags, rest) = Message::extract_core_tags("[42] connecting").unwrap();
    assert_eq!(tags.handle_id, Some(42));
    assert_eq!(rest, "connecting");
}

#[test]
fn core_without_brackets() {
    let (tags, rest) = Message::extract_core_tags("no brackets here").unwrap();
    assert_eq!(tags.handle_id, None);
    assert_eq!(rest, "no brackets here");
}

#[test]
fn core_leading_zeros_keep_prefix() {
    let (tags, rest) = Message::extract_core_tags("[007] agent").unwrap();
    assert_eq!(tags.handle_id, Some(7));
    assert_eq!(rest, "[007] agent");
}

#[test]
fn core_handle_without_space() {
    let (tags, rest) = Message::extract_core_tags("[5]x").unwrap();
    assert_eq!(tags.handle_id, Some(5));
    assert_eq!(rest, "[5]x");
}

#[test]
fn core_empty_brackets_and_letters() {
    let (tags, rest) = Message::extract_core_tags("[] x").unwrap();
    assert_eq!(tags.handle_id, None);
    assert_eq!(rest, "[] x");
    let (tags, rest) = Message::extract_core_tags("[4a] x").unwrap();
    assert_eq!(tags.handle_id, None);
    assert_eq!(rest, "[4a] x");
}

#[test]
fn core_largest_handle() {
    let line = format!("[{}] top", usize::MAX);
    let (tags, rest) = Message::extract_core_tags(&line).unwrap();
    assert_eq!(tags.handle_id, Some(usize::MAX));
    assert_eq!(rest, "top");
}

#[test]
fn core_handle_too_large() {
    let r = Message::extract_core_tags("[99999999999999999999999] x");
    assert_eq!(r.unwrap_err(), "Failed to parse handle id");
}

#[test]
fn conference_rtc_id() {
    let (src, rest) =
        Message::extract_source_with_tags("[CONFERENCE {\"rtc_id\":\"abc\"}] joined").unwrap();
    match src {
        SourceWithTags::Conference(t) => {
            assert_eq!(conference(&t), (None, Some("abc"), None, None))
        }
        _ => panic!("expected a conference source"),
    }
    assert_eq!(rest, "joined");
}

#[test]
fn conference_all_tags() {
    let line = "[CONFERENCE {\"handle_id\":5,\"rtc_id\":\"r\",\"agent_id\":\"a\",\"transaction\":\"t\",\"other\":[1]}] go";
    let (src, rest) = Message::extract_source_with_tags(line).unwrap();
    match src {
        SourceWithTags::Conference(t) => {
            assert_eq!(conference(&t), (Some(5), Some("r"), Some("a"), Some("t")))
        }
        _ => panic!("expected a conference source"),
    }
    assert_eq!(rest, "go");
}

#[test]
fn conference_null_member_is_absent() {
    let (src, _) =
        Message::extract_source_with_tags("[CONFERENCE {\"agent_id\":null}] x").unwrap();
    match src {
        SourceWithTags::Conference(t) => assert_eq!(conference(&t), (None, None, None, None)),
        _ => panic!("expected a conference source"),
    }
}

#[test]
fn conference_nested_braces_and_strings() {
    let line = "[CONFERENCE {\"rtc_id\":\"a}] b\",\"x\":{\"y\":{}}}] after] more";
    let (tags, rest) = split_conference(line).unwrap();
    assert_eq!(tags, "{\"rtc_id\":\"a}] b\",\"x\":{\"y\":{}}}");
    assert_eq!(rest, "after] more");
    let (src, _) = Message::extract_source_with_tags(line).unwrap();
    match src {
        SourceWithTags::Conference(t) => assert_eq!(t.rtc_id.as_deref(), Some("a}] b")),
        _ => panic!("expected a conference source"),
    }
}

#[test]
fn conference_escaped_quote_in_string() {
    let line = "[CONFERENCE {\"rtc_id\":\"q\\\"}\"}] m";
    let (tags, rest) = split_conference(line).unwrap();
    assert_eq!(tags, "{\"rtc_id\":\"q\\\"}\"}");
    assert_eq!(rest, "m");
}

#[test]
fn conference_marker_without_closing_is_core() {
    assert!(split_conference("[CONFERENCE {\"a\":1} x").is_none());
    assert!(split_conference("[CONFERENCE {\"a\":1}]x").is_none());
    assert!(split_conference("[CONFERENCE x] y").is_none());
    let (src, rest) = Message::extract_source_with_tags("[CONFERENCE x] y").unwrap();
    match src {
        SourceWithTags::Core(t) => assert_eq!(t.handle_id, None),
        _ => panic!("expected a core source"),
    }
    assert_eq!(rest, "[CONFERENCE x] y");
}

#[test]
fn conference_malformed_json() {
    let e = parse_conference_tags("{bad}").unwrap_err();
    assert!(e.starts_with("Failed to parse conference tags '{bad}': "));
    assert!(e.len() > "Failed to parse conference tags '{bad}': ".len());
    let e = Message::extract_source_with_tags("[CONFERENCE {bad}] x").unwrap_err();
    assert!(e.starts_with("Failed to parse conference tags '{bad}': "));
}

#[test]
fn conference_member_of_wrong_kind() {
    let e = parse_conference_tags("{\"handle_id\":\"x\"}").unwrap_err();
    assert_eq!(
        e,
        "Failed to parse conference tags '{\"handle_id\":\"x\"}': invalid value for member `handle_id`"
    );
    let e = parse_conference_tags("{\"handle_id\":-1}").unwrap_err();
    assert!(e.ends_with("invalid value for member `handle_id`"));
    let e = parse_conference_tags("{\"transaction\":7}").unwrap_err();
    assert!(e.ends_with("invalid value for member `transaction`"));
}

#[test]
fn members_read_directly() {
    let ms = vec![
        ("agent_id".to_string(), JsonScalar::Text("ag".to_string())),
        ("handle_id".to_string(), JsonScalar::Number(Some(9))),
        ("ignored".to_string(), JsonScalar::Bool(true)),
    ];
    let t = conference_tags_from_members(&ms).unwrap();
    assert_eq!(conference(&t), (Some(9), None, Some("ag"), None));
    let ms = vec![("rtc_id".to_string(), JsonScalar::Composite)];
    assert_eq!(
        conference_tags_from_members(&ms).unwrap_err(),
        "invalid value for member `rtc_id`"
    );
}

#[test]
fn trim_unicode_white_space() {
    assert_eq!(trim("\u{3000} a b \n"), "a b");
    assert_eq!(trim(" \t "), "");
    assert_eq!(trim("x"), "x");
}
