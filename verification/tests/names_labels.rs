use metrics_encoder::validate_prometheus_name;
use metrics_encoder::MetricsEncoder;

fn unescape_exposition(s: &str) -> String {
    let mut out = String::new();
    let mut it = s.chars();
    while let Some(c) = it.next() {
        if c == '\\' {
            match it.next() {
                Some('n') => out.push('\n'),
                Some(x) => out.push(x),
                None => out.push(c),
            }
        } else {
            out.push(c);
        }
    }
    out
}

#[test]
fn validator_accepts_valid_names() {
    assert!(validate_prometheus_name("_ok"));
    assert!(validate_prometheus_name("Ok_1"));
    assert!(validate_prometheus_name("a"));
    assert!(validate_prometheus_name("_"));
    assert!(validate_prometheus_name("requests_total"));
    assert!(validate_prometheus_name("A9_z"));
}

#[test]
fn validator_rejects_invalid_names() {
    assert!(!validate_prometheus_name("2xx"));
    assert!(!validate_prometheus_name(""));
    assert!(!validate_prometheus_name("9"));
    assert!(!validate_prometheus_name("a b"));
    assert!(!validate_prometheus_name("a-b"));
    assert!(!validate_prometheus_name("\u{3bb}x"));
    assert!(!validate_prometheus_name("caf\u{e9}"));
}

#[test]
fn labels_single_pair() {
    let out = MetricsEncoder::encode_labels(&[("code", "500")]);
    assert_eq!(out, "code=\"500\"");
}

#[test]
fn labels_keep_order_and_duplicates() {
    let out = MetricsEncoder::encode_labels(&[("b", "1"), ("a", "2"), ("b", "3")]);
    assert_eq!(out, "b=\"1\",a=\"2\",b=\"3\"");
}

#[test]
fn labels_empty_set_is_empty_text() {
    let out = MetricsEncoder::encode_labels(&[]);
    assert_eq!(out, "");
}

#[test]
fn label_value_quote_is_escaped() {
    let out = MetricsEncoder::encode_labels(&[("msg", "say \"hi\"")]);
    assert_eq!(out, "msg=\"say \\\"hi\\\"\"");
}

#[test]
fn label_value_backslash_and_newline_are_escaped() {
    let out = MetricsEncoder::encode_labels(&[("path", "a\\b\nc")]);
    assert_eq!(out, "path=\"a\\\\b\\nc\"");
}

#[test]
fn label_value_non_ascii_passes_through() {
    let out = MetricsEncoder::encode_labels(&[("msg", "h\u{e9}llo \u{1F600}")]);
    assert_eq!(out, "msg=\"h\u{e9}llo \u{1F600}\"");
}

#[test]
fn label_escaping_round_trips() {
    let original = "a\\b \"quoted\"\nnew\\\\line\"\\";
    let serialized = MetricsEncoder::encode_labels(&[("k", original)]);
    let interior = serialized
        .strip_prefix("k=\"")
        .unwrap()
        .strip_suffix("\"")
        .unwrap();
    assert_eq!(unescape_exposition(interior), original);
}
