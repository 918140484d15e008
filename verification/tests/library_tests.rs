use quickchart_rs::{
    collapse_whitespace, compact_chart, extract_short_url, json_quote, pct_encode,
    render_response, strip_quotes, u64_to_dec, QCError, QuickchartClient,
};

#[test]
fn compact_valid_json_parses_to_equal_value() {
    let input = "{\n  \"type\": \"bar\",\n  \"data\": [1, 2, 3]\n}";
    let compacted = compact_chart(input);
    let original: serde_json::Value = serde_json::from_str(input).unwrap();
    let roundtrip: serde_json::Value = serde_json::from_str(&compacted).unwrap();
    assert_eq!(original, roundtrip);
    assert!(!compacted.contains('\n'));
    assert!(!compacted.contains('\t'));
    assert!(!compacted.contains("  "));
}

#[test]
fn compact_minifies_json_exactly() {
    // Also shows that the serde_json boundary really re-encodes its input.
    assert_eq!(compact_chart("{ \"a\": 1 }"), "{\"a\":1}");
}

#[test]
fn compact_mixed_whitespace_object_literal() {
    // Unquoted key, so JSON parsing fails and whitespace collapsing runs.
    let chart = "{\n  type: 'bar'\n}";
    assert_eq!(compact_chart(chart), "{ type: 'bar' }");
}

#[test]
fn collapse_whitespace_covers_unicode_whitespace() {
    // Non-breaking space, ogham space mark, em space, ideographic space:
    // all in the Unicode white-space set that char::is_whitespace holds of.
    assert_eq!(collapse_whitespace("a\u{a0}\u{a0}b"), "a b");
    assert_eq!(collapse_whitespace("\u{1680}x\u{2003}\u{3000}y\u{2028}"), "x y");
    // Not whitespace: zero-width space passes through.
    assert_eq!(collapse_whitespace("a\u{200b}b"), "a\u{200b}b");
}

#[test]
fn compact_chart_unicode_whitespace_fallback() {
    // Unquoted key, so the collapse path runs; U+00A0 collapses like a space.
    assert_eq!(compact_chart("{type:\u{a0}\u{a0}'bar'}"), "{type: 'bar'}");
}

#[test]
fn compact_chart_is_idempotent_on_json() {
    let inputs = vec![
        "{ \"a\": 1, \"b\": [1.5, \"x\"] }",
        "[1, 2e3, -0.5]",
        "\"plain\\nstring\"",
        // Floats needing all 17 significant digits, the subnormal range and
        // the largest float: exact only with serde_json's float_roundtrip.
        "[2.2250738585072011e-308, 1.7976931348623157e308]",
        "[0.1212121212121212, 2.0e-318]",
    ];
    for input in inputs {
        let once = compact_chart(input);
        let twice = compact_chart(&once);
        assert_eq!(twice, once);
    }
}

#[test]
fn collapse_whitespace_edges() {
    assert_eq!(collapse_whitespace(""), "");
    assert_eq!(collapse_whitespace("   \t\r\n"), "");
    assert_eq!(collapse_whitespace(" a\t\tb "), "a b");
    assert_eq!(collapse_whitespace("a"), "a");
    assert_eq!(collapse_whitespace("\r\na \n b\r\n"), "a b");
}

#[test]
fn url_for_empty_configuration() {
    let client = QuickchartClient::new();
    let url = client.get_url().unwrap();
    assert_eq!(url, "https://quickchart.io/chart?c=");
}

#[test]
fn url_with_only_width_and_height() {
    let client = QuickchartClient::new().width(800).height(400);
    let url = client.get_url().unwrap();
    assert!(url.contains("w=800"));
    assert!(url.contains("h=400"));
    assert!(!url.contains("devicePixelRatio="));
    assert!(!url.contains("bkg="));
    assert!(!url.contains("v="));
    assert!(!url.contains("f="));
}

#[test]
fn url_with_zero_width_is_distinct_from_unset() {
    let set = QuickchartClient::new().width(0).get_url().unwrap();
    let unset = QuickchartClient::new().get_url().unwrap();
    assert!(set.contains("w=0"));
    assert!(!unset.contains("w="));
}

#[test]
fn url_percent_encodes_spaces_in_background_color() {
    let client = QuickchartClient::new().background_color("rgb(255, 0, 0)".to_string());
    let url = client.get_url().unwrap();
    assert!(url::Url::parse(&url).is_ok());
    assert!(url.contains("%20"));
    assert!(!url.contains(' '));
}

#[test]
fn pct_encode_exact_values() {
    assert_eq!(pct_encode("abcXYZ019-._~"), "abcXYZ019-._~");
    assert_eq!(pct_encode("a b#%"), "a%20b%23%25");
    assert_eq!(pct_encode("&=?/+"), "%26%3D%3F%2F%2B");
    // Multi-byte UTF-8: two, three and four byte encodings.
    assert_eq!(pct_encode("\u{e9}"), "%C3%A9");
    assert_eq!(pct_encode("\u{4f60}"), "%E4%BD%A0");
    assert_eq!(pct_encode("\u{1f600}"), "%F0%9F%98%80");
}

#[test]
fn u64_to_dec_exact_values() {
    assert_eq!(u64_to_dec(0), "0");
    assert_eq!(u64_to_dec(7), "7");
    assert_eq!(u64_to_dec(800), "800");
    assert_eq!(u64_to_dec(u64::MAX), "18446744073709551615");
}

#[test]
fn json_quote_exact_values() {
    assert_eq!(json_quote("hello"), "\"hello\"");
    assert_eq!(json_quote("a\"b\\c"), "\"a\\\"b\\\\c\"");
    assert_eq!(json_quote("\n\t\r\u{8}\u{c}"), "\"\\n\\t\\r\\b\\f\"");
    assert_eq!(json_quote("\u{1}\u{1f}"), "\"\\u0001\\u001f\"");
}

#[test]
fn json_quote_agrees_with_serde() {
    let samples = vec!["hello", "a\"b\\c", "line\nbreak\ttab", "\u{1}\u{1f}\u{e9}"];
    for s in samples {
        let expected = serde_json::to_string(&serde_json::Value::String(s.to_string())).unwrap();
        assert_eq!(json_quote(s), expected);
    }
}

#[test]
fn body_with_string_fallback_chart() {
    let client = QuickchartClient::new().chart("hello".to_string());
    assert_eq!(client.build_json_body(), "{\"chart\":\"hello\"}");
}

#[test]
fn body_with_object_literal_chart_is_a_json_string() {
    let client = QuickchartClient::new().chart("{type: 'bar'}".to_string());
    let body = client.build_json_body();
    let v: serde_json::Value = serde_json::from_str(&body).unwrap();
    assert_eq!(v["chart"], "{type: 'bar'}");
}

#[test]
fn body_with_only_chart_has_single_key() {
    let client = QuickchartClient::new().chart("{\"type\":\"pie\"}".to_string());
    let body = client.build_json_body();
    let v: serde_json::Value = serde_json::from_str(&body).unwrap();
    let obj = v.as_object().unwrap();
    assert_eq!(obj.len(), 1);
    assert!(obj.contains_key("chart"));
}

#[test]
fn body_fractional_device_pixel_ratio() {
    let client = QuickchartClient::new()
        .chart("{\"type\":\"bar\"}".to_string())
        .device_pixel_ratio(1.5f32.to_string());
    let body = client.build_json_body();
    let v: serde_json::Value = serde_json::from_str(&body).unwrap();
    assert_eq!(v["devicePixelRatio"].as_f64().unwrap(), 1.5);
}

#[test]
fn short_url_with_doubly_quoted_field() {
    let response = "{\"url\": \"\\\"https://quickchart.io/s/abc\\\"\"}";
    let url = extract_short_url(response).unwrap();
    assert_eq!(url, "https://quickchart.io/s/abc");
}

#[test]
fn short_url_with_single_quoted_field() {
    let response = "{\"url\": \"'https://quickchart.io/s/abc'\"}";
    let url = extract_short_url(response).unwrap();
    assert_eq!(url, "https://quickchart.io/s/abc");
}

#[test]
fn short_url_unquoted_field_passes_through() {
    let response = "{\"url\": \"https://quickchart.io/s/abc\"}";
    let url = extract_short_url(response).unwrap();
    assert_eq!(url, "https://quickchart.io/s/abc");
}

#[test]
fn short_url_missing_field_is_missing_field_error() {
    let result = extract_short_url("{\"other\": 1}");
    match result {
        Err(QCError::MissingField(field)) => assert_eq!(field, "url"),
        _ => panic!("expected a missing-field error"),
    }
}

#[test]
fn short_url_non_string_field_is_missing_field_error() {
    let result = extract_short_url("{\"url\": 17}");
    assert!(matches!(result, Err(QCError::MissingField(_))));
}

#[test]
fn short_url_malformed_response_is_parse_error() {
    let result = extract_short_url("not json at all");
    assert!(matches!(result, Err(QCError::JsonParseError(_))));
}

#[test]
fn strip_quotes_exact_values() {
    assert_eq!(strip_quotes("\"x\""), "x");
    assert_eq!(strip_quotes("'x'"), "x");
    assert_eq!(strip_quotes("''x''"), "'x'");
    assert_eq!(strip_quotes("\"x"), "x");
    assert_eq!(strip_quotes("x"), "x");
    assert_eq!(strip_quotes("\""), "");
    assert_eq!(strip_quotes(""), "");
}

#[test]
fn render_response_success_returns_bytes_unchanged() {
    let bytes = vec![1u8, 2, 3, 4];
    assert_eq!(render_response(200, bytes.clone()).unwrap(), bytes);
    assert_eq!(render_response(299, bytes.clone()).unwrap(), bytes);
}

#[test]
fn render_response_failure_returns_no_bytes() {
    let bytes = vec![1u8, 2, 3, 4];
    match render_response(404, bytes) {
        Err(QCError::HttpError(m)) => assert_eq!(m, "HTTP status 404"),
        _ => panic!("expected an HTTP error"),
    }
    assert!(matches!(render_response(300, vec![]), Err(QCError::HttpError(_))));
    assert!(matches!(render_response(199, vec![]), Err(QCError::HttpError(_))));
}
