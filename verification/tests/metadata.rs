use pneuma::broker::confidence::{ConfidenceScorer, ConfidenceSignals, EngineDecision};
use pneuma::broker::metadata::{
    baseline_signals, parse_bool, parse_text, parse_u32, parse_u64, parse_usize,
    signals_from_navigate_meta, signals_from_object, stamp_migrated,
};

fn object(text: &str) -> serde_json::Map<String, serde_json::Value> {
    match serde_json::from_str::<serde_json::Value>(text) {
        Ok(serde_json::Value::Object(object)) => object,
        other => panic!("not an object: {other:?}"),
    }
}

#[test]
fn valid_metadata_with_title_infers_signal_baseline() {
    let signals = signals_from_navigate_meta(r#"{"ok":true,"title":"Example Domain"}"#, 7);
    assert_eq!(signals.first_paint_ms, Some(600));
    assert!(signals.paint_element_count > 0);
    assert!(signals.dom_element_count > 0);
    assert!(signals.body_text_length >= 64);
}

#[test]
fn invalid_metadata_returns_safe_defaults() {
    let signals = signals_from_navigate_meta("not-json", 11);
    assert_eq!(signals.first_paint_ms, None);
    assert_eq!(signals.paint_element_count, 0);
    assert_eq!(signals.dom_element_count, 0);
    assert_eq!(signals.js_errors, 0);
    assert_eq!(signals.failed_resource_count, 0);
}

#[test]
fn optional_numeric_fields_are_ingested() {
    let signals = signals_from_navigate_meta(
        r#"{
                "ok": true,
                "title": "x",
                "js_errors": 4,
                "unhandled_promise_rejections": 3,
                "console_error_count": 2,
                "failed_resource_count": 8,
                "cors_violations": 5,
                "pending_requests_at_sample": 6,
                "css_parse_failures": 7,
                "js_execution_time_ms": 9001
            }"#,
        2,
    );
    assert_eq!(signals.js_errors, 4);
    assert_eq!(signals.unhandled_promise_rejections, 3);
    assert_eq!(signals.console_error_count, 2);
    assert_eq!(signals.failed_resource_count, 8);
    assert_eq!(signals.cors_violations, 5);
    assert_eq!(signals.pending_requests_at_sample, 6);
    assert_eq!(signals.css_parse_failures, 7);
    assert_eq!(signals.js_execution_time_ms, 9001);
}

#[test]
fn probe_explicit_fields_override_inferred_baseline() {
    let signals = signals_from_navigate_meta(
        r#"{
                "ok": true,
                "title": "x",
                "first_paint_ms": 42,
                "paint_element_count": 7,
                "dom_element_count": 15,
                "dom_depth_max": 4,
                "body_text_length": 100,
                "js_execution_time_ms": 80
            }"#,
        5,
    );
    assert_eq!(signals.first_paint_ms, Some(42));
    assert_eq!(signals.paint_element_count, 7);
    assert_eq!(signals.dom_element_count, 15);
    assert_eq!(signals.dom_depth_max, 4);
    assert_eq!(signals.body_text_length, 100);
    assert_eq!(signals.js_execution_time_ms, 80);
}

#[test]
fn stamp_migrated_inserts_field() {
    let input = r#"{"ok":true,"engine":"servo","migrated":false}"#;
    let output = stamp_migrated(input, true);
    let value: serde_json::Value = serde_json::from_str(&output).unwrap();
    assert_eq!(value["migrated"], serde_json::Value::Bool(true));
    assert_eq!(value["engine"], "servo");
}

#[test]
fn stamp_migrated_invalid_input_unchanged() {
    let input = "not-json";
    assert_eq!(stamp_migrated(input, true), input);
}

#[test]
fn baseline_is_exact() {
    let signals = signals_from_navigate_meta(r#"{"ok":true,"title":"Example Domain"}"#, 1234);
    assert_eq!(
        signals,
        ConfidenceSignals {
            first_paint_ms: Some(600),
            paint_element_count: 24,
            dom_element_count: 32,
            dom_depth_max: 6,
            body_text_length: 168,
            js_execution_time_ms: 250,
            sampled_at_ms: 1234,
            ..Default::default()
        }
    );
    let short = signals_from_navigate_meta(r#"{"title":"abc"}"#, 0);
    assert_eq!(short.first_paint_ms, None);
    assert_eq!(short.body_text_length, 64);
    assert_eq!(short.dom_element_count, 32);
}

#[test]
fn title_is_taken_as_given_and_measured_in_bytes() {
    // Six bytes in two characters.
    let signals = signals_from_navigate_meta("{\"title\":\"\u{65e5}\u{672c}\"}", 0);
    assert_eq!(signals.paint_element_count, 24);
    assert_eq!(signals.body_text_length, 72);
    // White space counts: the title has twenty-eight bytes.
    let padded = signals_from_navigate_meta(r#"{"title":"  a long title with spaces  "}"#, 0);
    assert_eq!(padded.body_text_length, 12 * 28);
    // A title of white space alone is a title that is not empty.
    let spaces = signals_from_navigate_meta(r#"{"ok":true,"title":"   "}"#, 9);
    assert_eq!(
        spaces,
        ConfidenceSignals {
            first_paint_ms: Some(600),
            paint_element_count: 24,
            dom_element_count: 32,
            dom_depth_max: 6,
            body_text_length: 64,
            js_execution_time_ms: 250,
            sampled_at_ms: 9,
            ..Default::default()
        }
    );
    let newline = signals_from_navigate_meta("{\"title\":\"\\n\"}", 0);
    assert_eq!(newline.dom_element_count, 32);
    assert_eq!(newline.body_text_length, 64);
    // Six times as many bytes as the least gives more than the least.
    let six = signals_from_navigate_meta(r#"{"title":"123456"}"#, 0);
    assert_eq!(six.body_text_length, 72);
    let five = signals_from_navigate_meta(r#"{"title":"12345"}"#, 0);
    assert_eq!(five.body_text_length, 64);
    let empty = signals_from_navigate_meta(r#"{"ok":true,"title":""}"#, 9);
    assert_eq!(
        empty,
        ConfidenceSignals { first_paint_ms: Some(600), sampled_at_ms: 9, ..Default::default() }
    );
}

#[test]
fn non_object_metadata_gives_blank_signals() {
    for meta in ["", "not-json", "null", "true", "17", "\"text\"", "[1,2]", "{", "{\"ok\":true"] {
        assert_eq!(
            signals_from_navigate_meta(meta, 77),
            ConfidenceSignals { sampled_at_ms: 77, ..Default::default() }
        );
        assert_eq!(stamp_migrated(meta, true), meta);
        assert_eq!(stamp_migrated(meta, false), meta);
    }
}

#[test]
fn wrongly_typed_fields_are_ignored() {
    let signals = signals_from_navigate_meta(
        r#"{"ok":"yes","title":17,"first_paint_ms":"12","js_errors":-1,
            "cors_violations":2.5,"dom_element_count":null,"css_parse_failures":[4],
            "console_error_count":{"n":1},"body_text_length":true,"unknown":5}"#,
        3,
    );
    assert_eq!(signals, ConfidenceSignals { sampled_at_ms: 3, ..Default::default() });
    let not_ok = signals_from_navigate_meta(r#"{"ok":false,"title":""}"#, 3);
    assert_eq!(not_ok, ConfidenceSignals { sampled_at_ms: 3, ..Default::default() });
}

#[test]
fn numeric_fields_are_clamped_not_wrapped() {
    let signals = signals_from_navigate_meta(
        r#"{"js_errors":4294967296,"cors_violations":4294967295,
            "console_error_count":18446744073709551615,
            "js_execution_time_ms":18446744073709551615,
            "first_paint_ms":18446744073709551615,
            "dom_element_count":18446744073709551615,
            "failed_resource_count":18446744073709551616}"#,
        0,
    );
    assert_eq!(signals.js_errors, u32::MAX);
    assert_eq!(signals.cors_violations, u32::MAX);
    assert_eq!(signals.console_error_count, u32::MAX);
    assert_eq!(signals.js_execution_time_ms, u64::MAX);
    assert_eq!(signals.first_paint_ms, Some(u64::MAX));
    assert_eq!(signals.dom_element_count, usize::try_from(u64::MAX).unwrap_or(usize::MAX));
    // A number beyond 64 bits is no unsigned integer to the reader.
    assert_eq!(signals.failed_resource_count, 0);
}

#[test]
fn members_are_read_by_their_kind() {
    let object = object(r#"{"flag":true,"text":"hello","n":7,"big":4294967297,"neg":-3,"f":1.5}"#);
    assert_eq!(parse_bool(&object, "flag"), Some(true));
    assert_eq!(parse_bool(&object, "text"), None);
    assert_eq!(parse_bool(&object, "missing"), None);
    assert_eq!(parse_text(&object, "text"), Some("hello"));
    assert_eq!(parse_text(&object, "n"), None);
    assert_eq!(parse_u64(&object, "n"), Some(7));
    assert_eq!(parse_u64(&object, "big"), Some(4_294_967_297));
    assert_eq!(parse_u64(&object, "neg"), None);
    assert_eq!(parse_u64(&object, "f"), None);
    assert_eq!(parse_u64(&object, "flag"), None);
    assert_eq!(parse_u32(&object, "n"), Some(7));
    assert_eq!(parse_u32(&object, "big"), Some(u32::MAX));
    assert_eq!(parse_u32(&object, "neg"), None);
    assert_eq!(parse_usize(&object, "n"), Some(7));
    assert_eq!(parse_usize(&object, "text"), None);
}

#[test]
fn object_signals_match_text_signals() {
    let text = r#"{"ok":true,"title":" Shop ","dom_element_count":3,"js_errors":9}"#;
    let from_object = signals_from_object(&object(text), 5);
    assert_eq!(from_object, signals_from_navigate_meta(text, 5));
    assert_eq!(from_object.dom_element_count, 3);
    assert_eq!(from_object.body_text_length, 72);
    assert_eq!(from_object.js_errors, 9);
    let base = baseline_signals(&object(text), 5);
    assert_eq!(base.dom_element_count, 32);
    assert_eq!(base.js_errors, 0);
    assert_eq!(base.first_paint_ms, Some(600));
}

#[test]
fn stamp_overwrites_and_keeps_other_members() {
    let input = r#"{"title":"T","migrated":"no","nested":{"migrated":false},"list":[1,2.5,null]}"#;
    let output = stamp_migrated(input, true);
    let value: serde_json::Value = serde_json::from_str(&output).unwrap();
    assert_eq!(value["migrated"], serde_json::Value::Bool(true));
    assert_eq!(value["title"], "T");
    assert_eq!(value["nested"]["migrated"], serde_json::Value::Bool(false));
    assert_eq!(value["list"][1], 2.5);
    assert_eq!(value.as_object().map(|object| object.len()), Some(4));
    let cleared = stamp_migrated(&output, false);
    let value: serde_json::Value = serde_json::from_str(&cleared).unwrap();
    assert_eq!(value["migrated"], serde_json::Value::Bool(false));
    assert_eq!(stamp_migrated("{}", true), r#"{"migrated":true}"#);
}

#[test]
fn stamping_twice_is_stamping_once() {
    for meta in [
        r#"{"ok":true,"engine":"servo","title":"x","migrated":false,"first_paint_ms":12}"#,
        r#"{ "b" : 1, "a" : [ true, null, "s\n" ], "a" : -0.5 }"#,
        "{}",
        "[]",
        "oops",
    ] {
        let once = stamp_migrated(meta, true);
        assert_eq!(stamp_migrated(&once, true), once);
    }
}

#[test]
fn a_float_may_drift_but_what_is_read_stays() {
    // The number is written with more digits than the reader keeps apart.
    let meta = r#"{"ok":true,"title":"t","first_paint_ms":7,"n":1.7976931348623130e308}"#;
    let once = stamp_migrated(meta, true);
    let twice = stamp_migrated(&once, true);
    for stamped in [&once, &twice] {
        let value: serde_json::Value = serde_json::from_str(stamped).unwrap();
        assert_eq!(value["migrated"], serde_json::Value::Bool(true));
        assert_eq!(value["title"], "t");
        assert_eq!(value["first_paint_ms"], 7);
        assert!(value["n"].is_f64());
        assert_eq!(signals_from_navigate_meta(stamped, 3), signals_from_navigate_meta(meta, 3));
    }
}

#[test]
fn stamp_keeps_the_signals() {
    for meta in [
        r#"{"ok":true,"title":"  Example  ","first_paint_ms":42,"dom_element_count":7}"#,
        "{\"ok\":true,\"migrated\":false,\"js_errors\":5000000000,\"title\":\"\u{e9}\"}",
        r#"{"migrated":1,"title":"x","cors_violations":3,"extra":{"deep":[1,2,3]}}"#,
        "{}",
        "not-json",
        "[{\"ok\":true}]",
    ] {
        let stamped = stamp_migrated(meta, true);
        assert_eq!(
            signals_from_navigate_meta(&stamped, 31),
            signals_from_navigate_meta(meta, 31)
        );
    }
}

#[test]
fn metadata_scenarios_decide_as_expected() {
    let scorer = ConfidenceScorer::new();
    let healthy = signals_from_navigate_meta(r#"{"ok":true,"title":"Example Domain"}"#, 0);
    assert_eq!(scorer.score(&healthy).decision, EngineDecision::StayOnServo);
    assert_eq!(scorer.score(&healthy).overall, 79_160);
    let failed = signals_from_navigate_meta(r#"{"ok":false,"title":"Example Domain"}"#, 0);
    assert!(matches!(scorer.score(&failed).decision, EngineDecision::EscalateToLadybird(_)));
}
