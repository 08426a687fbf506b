use gateway::errors::{
    config_missing_response, gateway_error_response, json_escape, kind_label_str,
    payment_error_response, status_for, ErrorKind,
};

#[test]
fn config_missing_body_is_exact() {
    let r = config_missing_response();
    assert_eq!(r.status, 400);
    assert_eq!(
        r.body,
        "{\"error\":{\"message\":\"Server configuration missing. Cannot process request without a configured endpoint.\",\"type\":\"server_error\",\"param\":null,\"code\":\"server_config_missing\"}}"
    );
}

#[test]
fn payment_error_body_embeds_cause() {
    let r = payment_error_response("wallet is empty");
    assert_eq!(r.status, 500);
    assert_eq!(
        r.body,
        "{\"error\":{\"message\":\"Failed to generate payment token: wallet is empty\",\"type\":\"payment_error\",\"param\":null}}"
    );
}

#[test]
fn gateway_error_body_embeds_cause() {
    let r = gateway_error_response("connection refused");
    assert_eq!(r.status, 500);
    assert_eq!(
        r.body,
        "{\"error\":{\"message\":\"Error forwarding request: connection refused\",\"type\":\"gateway_error\",\"param\":null}}"
    );
}

#[test]
fn error_body_escapes_quotes_and_backslashes() {
    let r = payment_error_response("a \"quoted\" \\ cause");
    assert_eq!(
        r.body,
        "{\"error\":{\"message\":\"Failed to generate payment token: a \\\"quoted\\\" \\\\ cause\",\"type\":\"payment_error\",\"param\":null}}"
    );
}

#[test]
fn json_escape_handles_control_characters() {
    assert_eq!(json_escape("plain"), "plain");
    assert_eq!(json_escape("line\nbreak"), "line\\nbreak");
    assert_eq!(json_escape("tab\there"), "tab\\there");
    assert_eq!(json_escape("ret\rhere"), "ret\\rhere");
    assert_eq!(json_escape("\u{01}"), "\\u0001");
    assert_eq!(json_escape("\u{1f}"), "\\u001f");
    assert_eq!(json_escape(""), "");
}

#[test]
fn kind_labels_and_statuses() {
    assert_eq!(kind_label_str(ErrorKind::ServerError), "server_error");
    assert_eq!(kind_label_str(ErrorKind::PaymentError), "payment_error");
    assert_eq!(kind_label_str(ErrorKind::GatewayError), "gateway_error");
    assert_eq!(status_for(ErrorKind::ServerError), 400);
    assert_eq!(status_for(ErrorKind::PaymentError), 500);
    assert_eq!(status_for(ErrorKind::GatewayError), 500);
}
