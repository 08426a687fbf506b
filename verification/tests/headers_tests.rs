use gateway::headers::{contains_header, filter_headers, is_connection_header_name, refund_amount};

fn pairs(raw: &[(&str, &str)]) -> Vec<(String, String)> {
    raw.iter().map(|(n, v)| (n.to_string(), v.to_string())).collect()
}

#[test]
fn filter_drops_connection_management_headers_only() {
    let upstream = pairs(&[
        ("content-type", "application/json"),
        ("connection", "keep-alive"),
        ("x-request-id", "abc"),
        ("transfer-encoding", "chunked"),
        ("date", "today"),
    ]);
    let out = filter_headers(&upstream, false);
    assert_eq!(
        out,
        pairs(&[
            ("content-type", "application/json"),
            ("x-request-id", "abc"),
            ("date", "today"),
        ])
    );
}

#[test]
fn filter_of_empty_set_is_empty() {
    let out = filter_headers(&Vec::new(), false);
    assert!(out.is_empty());
}

#[test]
fn filter_injects_event_stream_content_type_when_streaming() {
    let upstream = pairs(&[("x-request-id", "abc")]);
    let out = filter_headers(&upstream, true);
    assert_eq!(
        out,
        pairs(&[("content-type", "text/event-stream"), ("x-request-id", "abc")])
    );
}

#[test]
fn filter_keeps_upstream_content_type_when_streaming() {
    let upstream = pairs(&[("content-type", "application/json")]);
    let out = filter_headers(&upstream, true);
    assert_eq!(out, pairs(&[("content-type", "application/json")]));
}

#[test]
fn no_injection_when_not_streaming() {
    let upstream = pairs(&[("x-request-id", "abc")]);
    let out = filter_headers(&upstream, false);
    assert_eq!(out, pairs(&[("x-request-id", "abc")]));
}

#[test]
fn connection_header_names() {
    assert!(is_connection_header_name(&"connection".to_string()));
    assert!(is_connection_header_name(&"transfer-encoding".to_string()));
    assert!(!is_connection_header_name(&"content-type".to_string()));
}

#[test]
fn contains_header_looks_names_up() {
    let hs = pairs(&[("a", "1"), ("b", "2")]);
    assert!(contains_header(&hs, &"a".to_string()));
    assert!(!contains_header(&hs, &"c".to_string()));
}

#[test]
fn duplicate_headers_are_kept_verbatim_in_order() {
    let upstream = pairs(&[("set-cookie", "a=1"), ("connection", "close"), ("set-cookie", "b=2")]);
    let out = filter_headers(&upstream, false);
    assert_eq!(out, pairs(&[("set-cookie", "a=1"), ("set-cookie", "b=2")]));
}

#[test]
fn first_refund_header_wins() {
    let hs = pairs(&[("x-change-sats", "1"), ("x-change-sats", "2")]);
    assert_eq!(refund_amount(&hs), Some("1".to_string()));
}

#[test]
fn refund_amount_reads_the_refund_header() {
    let hs = pairs(&[("content-type", "application/json"), ("x-change-sats", "7")]);
    assert_eq!(refund_amount(&hs), Some("7".to_string()));
}

#[test]
fn refund_amount_absent_without_the_header() {
    let hs = pairs(&[("content-type", "application/json")]);
    assert_eq!(refund_amount(&hs), None);
    assert_eq!(refund_amount(&Vec::new()), None);
}
