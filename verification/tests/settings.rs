use stremio_service::json::settings_fields;
use stremio_service::probe::{evaluate_response, settings_url, SettingsError};

const GOOD_BODY: &str =
    r#"{"values":{"serverVersion":"1.2.3"},"baseUrl":"http://127.0.0.1:9000"}"#;

#[test]
fn good_body_yields_version_and_base_url() {
    let data = evaluate_response(200, GOOD_BODY).expect("the documented shape must parse");
    assert_eq!(data.version, "1.2.3");
    assert_eq!(data.base_url, "http://127.0.0.1:9000");
}

#[test]
fn extra_members_and_whitespace_are_tolerated() {
    let body = " {\n \"other\": [1, -2.5e+10, true, null, {\"deep\": \"x\"}],\n \
                \"baseUrl\" : \"http://127.0.0.1:11470\" ,\n \
                \"values\" : { \"appPath\": \"/home/u\", \"serverVersion\": \"4.20.1\", \"cacheSize\": 2147483648 }\n } ";
    let data = evaluate_response(204, body).expect("extra members are allowed");
    assert_eq!(data.version, "4.20.1");
    assert_eq!(data.base_url, "http://127.0.0.1:11470");
}

#[test]
fn escapes_are_decoded() {
    let body = r#"{"values":{"serverVersion":"1.2.3"},"baseUrl":"http:\/\/h\nost"}"#;
    let (version, base_url) = settings_fields(body).expect("escapes are part of the grammar");
    assert_eq!(version, "1.2.3");
    assert_eq!(base_url, "http://h\nost");
}

#[test]
fn surrogate_pairs_are_decoded_and_lone_surrogates_rejected() {
    let body = r#"{"values":{"serverVersion":"😀"},"baseUrl":"u"}"#;
    let (version, _) = settings_fields(body).expect("a surrogate pair is one character");
    assert_eq!(version, "\u{1F600}");

    let lone = r#"{"values":{"serverVersion":"\uD83D"},"baseUrl":"u"}"#;
    assert!(settings_fields(lone).is_none());
}

#[test]
fn unicode_in_skipped_members_is_no_obstacle() {
    let body = r#"{"kéy":"välue ✓","values":{"serverVersion":"1.2.3"},"baseUrl":"u"}"#;
    let (version, base_url) = settings_fields(body).expect("other members may hold anything");
    assert_eq!(version, "1.2.3");
    assert_eq!(base_url, "u");
}

#[test]
fn non_success_status_is_rejected_as_such() {
    assert_eq!(
        evaluate_response(500, GOOD_BODY).unwrap_err(),
        SettingsError::HttpStatus { code: 500 }
    );
    assert_eq!(
        evaluate_response(301, GOOD_BODY).unwrap_err(),
        SettingsError::HttpStatus { code: 301 }
    );
    assert_eq!(
        evaluate_response(199, GOOD_BODY).unwrap_err(),
        SettingsError::HttpStatus { code: 199 }
    );
}

#[test]
fn wrong_shapes_are_rejected() {
    // Not JSON at all.
    assert!(matches!(
        evaluate_response(200, "EngineFS"),
        Err(SettingsError::ShapeMismatch)
    ));
    // Missing baseUrl.
    assert!(settings_fields(r#"{"values":{"serverVersion":"1.2.3"}}"#).is_none());
    // Missing serverVersion inside values.
    assert!(settings_fields(r#"{"values":{},"baseUrl":"u"}"#).is_none());
    // baseUrl is not a string.
    assert!(settings_fields(r#"{"values":{"serverVersion":"1"},"baseUrl":7}"#).is_none());
    // values is not an object.
    assert!(settings_fields(r#"{"values":[],"baseUrl":"u"}"#).is_none());
    // The root is not an object.
    assert!(settings_fields(r#"["values","baseUrl"]"#).is_none());
    // Trailing content after the document.
    assert!(settings_fields(&format!("{} extra", GOOD_BODY)).is_none());
    // Trailing comma.
    assert!(settings_fields(r#"{"values":{"serverVersion":"1"},"baseUrl":"u",}"#).is_none());
    // Unterminated string.
    assert!(settings_fields(r#"{"values":{"serverVersion":"1"},"baseUrl":"u"#).is_none());
}

#[test]
fn number_grammar_is_exact() {
    // A leading zero is not a JSON number.
    assert!(settings_fields(r#"{"x":01,"values":{"serverVersion":"1"},"baseUrl":"u"}"#).is_none());
    // A bare minus is not a number either.
    assert!(settings_fields(r#"{"x":-,"values":{"serverVersion":"1"},"baseUrl":"u"}"#).is_none());
    // A full float with exponent is fine.
    let body = r#"{"x":-0.25E-3,"values":{"serverVersion":"1"},"baseUrl":"u"}"#;
    assert!(settings_fields(body).is_some());
}

#[test]
fn first_occurrence_of_a_captured_key_wins() {
    let body = r#"{"baseUrl":"first","baseUrl":"second","values":{"serverVersion":"1"}}"#;
    let (_, base_url) = settings_fields(body).expect("duplicates are ordinary members");
    assert_eq!(base_url, "first");
}

#[test]
fn nesting_beyond_the_bound_is_rejected() {
    let mut deep = String::from(r#"{"values":{"serverVersion":"1"},"baseUrl":"u","x":"#);
    for _ in 0..200 {
        deep.push('[');
    }
    for _ in 0..200 {
        deep.push(']');
    }
    deep.push('}');
    assert!(settings_fields(&deep).is_none());

    // A document comfortably inside the bound is accepted.
    let mut ok = String::from(r#"{"values":{"serverVersion":"1"},"baseUrl":"u","x":"#);
    for _ in 0..100 {
        ok.push('[');
    }
    for _ in 0..100 {
        ok.push(']');
    }
    ok.push('}');
    assert!(settings_fields(&ok).is_some());
}

#[test]
fn settings_url_joins_the_well_known_path() {
    assert_eq!(settings_url("http://127.0.0.1:9000"), "http://127.0.0.1:9000/settings");
    assert_eq!(settings_url("http://127.0.0.1:9000/"), "http://127.0.0.1:9000/settings");
    assert_eq!(settings_url(""), "/settings");
}
