use deepl_proxy::envelope::ApiResponse;
use deepl_proxy::envelope::ImproveRequest;
use deepl_proxy::envelope::TranslateRequest;
use deepl_proxy::health::health_check;
use deepl_proxy::payload::improve_payload;
use deepl_proxy::payload::translate_payload;
use deepl_proxy::upstream::improve_envelope;
use deepl_proxy::upstream::translate_envelope;
use deepl_proxy::upstream::UpstreamOutcome;

fn check_invariant(r: &ApiResponse) {
    if r.success {
        assert!(r.error.is_none());
    } else {
        assert!(r.result.is_empty());
        assert!(r.error.is_some());
    }
}

fn reply(status: u16, body: &str) -> UpstreamOutcome {
    UpstreamOutcome::Reply { status, body: body.to_string() }
}

#[test]
fn translate_one_translation() {
    let r = translate_envelope(&reply(200, "{\"translations\":[{\"text\":\"Witaj\"}]}"));
    assert_eq!(r.result, "Witaj");
    assert!(r.success);
    assert_eq!(r.error, None);
    check_invariant(&r);
}

#[test]
fn translate_takes_first_of_many() {
    let body = "{\"translations\":[{\"text\":\"Witaj\"},{\"text\":\"Hej\"}]}";
    let r = translate_envelope(&reply(200, body));
    assert!(r.success);
    assert_eq!(r.result, "Witaj");
}

#[test]
fn translate_http_error() {
    let r = translate_envelope(&reply(403, "irrelevant"));
    assert_eq!(r.result, "");
    assert!(!r.success);
    assert_eq!(r.error.as_deref(), Some("API error: 403"));
    check_invariant(&r);
}

#[test]
fn translate_http_error_boundaries() {
    let low = translate_envelope(&reply(199, "{\"translations\":[{\"text\":\"x\"}]}"));
    assert_eq!(low.error.as_deref(), Some("API error: 199"));
    let high = translate_envelope(&reply(300, "{\"translations\":[{\"text\":\"x\"}]}"));
    assert_eq!(high.error.as_deref(), Some("API error: 300"));
    let edge = translate_envelope(&reply(299, "{\"translations\":[{\"text\":\"x\"}]}"));
    assert!(edge.success);
    assert_eq!(edge.result, "x");
}

#[test]
fn translate_empty_list() {
    let r = translate_envelope(&reply(200, "{\"translations\":[]}"));
    assert_eq!(r.result, "");
    assert!(!r.success);
    assert_eq!(r.error.as_deref(), Some("No translation returned"));
    check_invariant(&r);
}

#[test]
fn translate_transport_failure() {
    let r = translate_envelope(&UpstreamOutcome::TransportFailure);
    assert_eq!(r.result, "");
    assert!(!r.success);
    assert_eq!(r.error.as_deref(), Some("Network error"));
    check_invariant(&r);
}

#[test]
fn translate_unparseable_body() {
    let r = translate_envelope(&reply(200, "this is not json"));
    assert_eq!(r.error.as_deref(), Some("Failed to parse response"));
    check_invariant(&r);
}

#[test]
fn translate_wrong_shape() {
    let r = translate_envelope(&reply(200, "{\"improvements\":[{\"text\":\"x\"}]}"));
    assert_eq!(r.error.as_deref(), Some("Failed to parse response"));
    let r2 = translate_envelope(&reply(200, "{\"translations\":[{\"text\":5}]}"));
    assert_eq!(r2.error.as_deref(), Some("Failed to parse response"));
    let r3 = translate_envelope(&reply(200, "{\"translations\":[{\"other\":\"x\"}]}"));
    assert_eq!(r3.error.as_deref(), Some("Failed to parse response"));
}

#[test]
fn improve_one_improvement() {
    let body = "{\"improvements\":[{\"detected_source_language\":\"EN\",\"text\":\"Hello there\"}]}";
    let r = improve_envelope(&reply(200, body));
    assert!(r.success);
    assert_eq!(r.result, "Hello there");
    check_invariant(&r);
}

#[test]
fn improve_empty_list() {
    let r = improve_envelope(&reply(200, "{\"improvements\":[]}"));
    assert_eq!(r.error.as_deref(), Some("No improvement returned"));
    check_invariant(&r);
}

#[test]
fn improve_http_error() {
    let r = improve_envelope(&reply(456, ""));
    assert_eq!(r.error.as_deref(), Some("API error: 456"));
    check_invariant(&r);
}

#[test]
fn improve_transport_failure() {
    let r = improve_envelope(&UpstreamOutcome::TransportFailure);
    assert_eq!(r.error.as_deref(), Some("Network error"));
    check_invariant(&r);
}

#[test]
fn improve_unparseable_body() {
    let r = improve_envelope(&reply(200, "{\"improvements\":"));
    assert_eq!(r.error.as_deref(), Some("Failed to parse response"));
    check_invariant(&r);
}

#[test]
fn translate_payload_default_lang() {
    let req = TranslateRequest { text: "Hello".to_string(), target_lang: None };
    let p = translate_payload(&req);
    assert_eq!(p, "{\"text\":[\"Hello\"],\"target_lang\":\"EN\"}");
}

#[test]
fn translate_payload_explicit_lang() {
    let req = TranslateRequest { text: "Hello".to_string(), target_lang: Some("PL".to_string()) };
    let p = translate_payload(&req);
    assert_eq!(p, "{\"text\":[\"Hello\"],\"target_lang\":\"PL\"}");
}

#[test]
fn improve_payload_text_only() {
    let req = ImproveRequest {
        text: "Hello".to_string(),
        target_lang: None,
        writing_style: None,
        tone: None,
    };
    let p = improve_payload(&req);
    assert_eq!(p, "{\"text\":[\"Hello\"]}");
}

#[test]
fn improve_payload_all_fields() {
    let req = ImproveRequest {
        text: "Hello".to_string(),
        target_lang: Some("DE".to_string()),
        writing_style: Some("business".to_string()),
        tone: Some("friendly".to_string()),
    };
    let p = improve_payload(&req);
    assert_eq!(
        p,
        "{\"text\":[\"Hello\"],\"target_lang\":\"DE\",\"writing_style\":\"business\",\"tone\":\"friendly\"}"
    );
}

#[test]
fn improve_payload_some_fields() {
    let req = ImproveRequest {
        text: "Hi".to_string(),
        target_lang: None,
        writing_style: Some("casual".to_string()),
        tone: None,
    };
    let p = improve_payload(&req);
    assert_eq!(p, "{\"text\":[\"Hi\"],\"writing_style\":\"casual\"}");
}

#[test]
fn payload_escapes_text() {
    let req = TranslateRequest {
        text: "a\"b\\c\nd\re\tf\u{1}g".to_string(),
        target_lang: Some("EN".to_string()),
    };
    let p = translate_payload(&req);
    assert_eq!(
        p,
        "{\"text\":[\"a\\\"b\\\\c\\nd\\re\\tf\\u0001g\"],\"target_lang\":\"EN\"}"
    );
}

#[test]
fn payload_round_trips_through_json() {
    let text = "quote \" backslash \\ newline \n control \u{1f} unicode ż \u{1F600}";
    let req = TranslateRequest { text: text.to_string(), target_lang: Some("PL".to_string()) };
    let p = translate_payload(&req);
    let v: serde_json::Value = serde_json::from_str(&p).expect("payload must be valid JSON");
    assert_eq!(v.get("text").unwrap().get(0).unwrap().as_str(), Some(text));
    assert_eq!(v.get("target_lang").unwrap().as_str(), Some("PL"));
}

#[test]
fn improve_payload_round_trips_through_json() {
    let req = ImproveRequest {
        text: "line1\nline2".to_string(),
        target_lang: Some("EN-GB".to_string()),
        writing_style: None,
        tone: Some("t\"one".to_string()),
    };
    let p = improve_payload(&req);
    let v: serde_json::Value = serde_json::from_str(&p).expect("payload must be valid JSON");
    assert_eq!(v.get("text").unwrap().get(0).unwrap().as_str(), Some("line1\nline2"));
    assert_eq!(v.get("target_lang").unwrap().as_str(), Some("EN-GB"));
    assert_eq!(v.get("writing_style"), None);
    assert_eq!(v.get("tone").unwrap().as_str(), Some("t\"one"));
}

#[test]
fn health_is_constant() {
    let h = health_check();
    assert_eq!(h.status, "healthy");
    assert_eq!(h.service, "deepl-proxy");
    assert_eq!(h.version, "0.1.0");
}

#[test]
fn status_codes_render_in_decimal() {
    for (status, expected) in [
        (0u16, "API error: 0"),
        (7, "API error: 7"),
        (42, "API error: 42"),
        (404, "API error: 404"),
        (500, "API error: 500"),
        (1000, "API error: 1000"),
        (65535, "API error: 65535"),
    ] {
        let r = translate_envelope(&reply(status, ""));
        if !(200..=299).contains(&status) {
            assert_eq!(r.error.as_deref(), Some(expected));
        }
    }
}

#[test]
fn escape_leaves_plain_text_alone() {
    let out = deepl_proxy::escape::json_escape("Hello, world");
    let s: String = out.iter().collect();
    assert_eq!(s, "Hello, world");
}

#[test]
fn escape_rewrites_special_characters() {
    let out = deepl_proxy::escape::json_escape("a\"b\\c\nd\re\tf\u{0}g\u{1f}h");
    let s: String = out.iter().collect();
    assert_eq!(s, "a\\\"b\\\\c\\nd\\re\\tf\\u0000g\\u001fh");
}

#[test]
fn blank_input_is_detected() {
    assert!(deepl_proxy::input::is_blank(""));
    assert!(deepl_proxy::input::is_blank("   \t\r\n"));
    assert!(deepl_proxy::input::is_blank("\u{a0}\u{2003}\u{3000}"));
    assert!(!deepl_proxy::input::is_blank("  x  "));
    assert!(!deepl_proxy::input::is_blank("Hello"));
    // agrees with the standard trim-and-check the client performs
    for s in ["", " ", "\t\n", " a ", "ż", "\u{2028}\u{2029}"] {
        assert_eq!(deepl_proxy::input::is_blank(s), s.trim().is_empty());
    }
}

#[test]
fn envelope_constructors_keep_invariant() {
    let ok = ApiResponse::succeeded("done".to_string());
    assert!(ok.success);
    assert_eq!(ok.result, "done");
    assert_eq!(ok.error, None);
    check_invariant(&ok);
    let err = ApiResponse::failed("boom".to_string());
    assert!(!err.success);
    assert_eq!(err.result, "");
    assert_eq!(err.error.as_deref(), Some("boom"));
    check_invariant(&err);
}
