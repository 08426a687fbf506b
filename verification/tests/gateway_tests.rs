use gateway::config::{plan_client, UpstreamConfig};
use gateway::gateway::{
    change_log_line, forward_request_with_payment, forward_request_with_payment_with_body,
    GatewayResponse, RunRecord, UpstreamOutcome, PAYMENT_AMOUNT_SATS,
};
use gateway::relay::{ChunkEvent, RelayItem};
use gateway::request::{build_request, endpoint_url, is_streaming_call, Method, Operation};

fn config() -> Option<UpstreamConfig> {
    Some(UpstreamConfig {
        endpoint: "https://upstream.example".to_string(),
        api_key: "key-under-test".to_string(),
    })
}

fn ok_outcome(headers: &[(&str, &str)], chunks: &[&[u8]]) -> Result<UpstreamOutcome, String> {
    Ok(UpstreamOutcome {
        status: 200,
        headers: headers.iter().map(|(n, v)| (n.to_string(), v.to_string())).collect(),
        events: chunks.iter().map(|c| ChunkEvent::Data(c.to_vec())).collect(),
    })
}

fn run_plain(
    config: Option<UpstreamConfig>,
    token_result: Result<String, String>,
    upstream_result: Result<UpstreamOutcome, String>,
) -> RunRecord {
    forward_request_with_payment_with_body(
        &Operation::ChatCompletions,
        &Some("{\"model\":\"m\"}".to_string()),
        &None,
        false,
        &config,
        &token_result,
        &upstream_result,
    )
}

#[test]
fn missing_config_rejects_without_any_wallet_call() {
    let r = run_plain(None, Ok("tok".to_string()), ok_outcome(&[], &[]));
    match &r.response {
        GatewayResponse::Error(e) => {
            assert_eq!(e.status, 400);
            assert!(e.body.contains("\"code\":\"server_config_missing\""));
            assert!(e.body.contains("\"type\":\"server_error\""));
        }
        _ => panic!("expected an error response"),
    }
    assert!(r.wallet_sends.is_empty());
    assert!(r.upstream_calls.is_empty());
    assert!(r.receives.is_empty());
}

#[test]
fn one_charge_iff_configured() {
    let with = run_plain(config(), Ok("tok".to_string()), ok_outcome(&[], &[]));
    assert_eq!(with.wallet_sends, vec![PAYMENT_AMOUNT_SATS]);
    let without = run_plain(None, Ok("tok".to_string()), ok_outcome(&[], &[]));
    assert!(without.wallet_sends.is_empty());
    let failed_wallet = run_plain(config(), Err("down".to_string()), ok_outcome(&[], &[]));
    assert_eq!(failed_wallet.wallet_sends, vec![PAYMENT_AMOUNT_SATS]);
}

#[test]
fn payment_failure_gives_500_and_never_contacts_upstream() {
    let r = run_plain(config(), Err("mint refused".to_string()), ok_outcome(&[], &[]));
    match &r.response {
        GatewayResponse::Error(e) => {
            assert_eq!(e.status, 500);
            assert!(e.body.contains("\"type\":\"payment_error\""));
            assert!(e.body.contains("Failed to generate payment token: mint refused"));
        }
        _ => panic!("expected an error response"),
    }
    assert!(r.upstream_calls.is_empty());
    assert!(r.receives.is_empty());
}

#[test]
fn transport_failure_maps_to_gateway_error() {
    let r = run_plain(config(), Ok("tok".to_string()), Err("connection refused".to_string()));
    match &r.response {
        GatewayResponse::Error(e) => {
            assert_eq!(e.status, 500);
            assert!(e.body.contains("\"type\":\"gateway_error\""));
            assert!(e.body.contains("Error forwarding request: connection refused"));
        }
        _ => panic!("expected an error response"),
    }
    assert_eq!(r.upstream_calls.len(), 1);
    assert!(r.receives.is_empty());
}

#[test]
fn successful_post_relays_body_and_makes_one_charge() {
    let upstream = ok_outcome(
        &[("content-type", "application/json")],
        &[b"{\"answer\":42}"],
    );
    let r = run_plain(config(), Ok("tok".to_string()), upstream);
    match &r.response {
        GatewayResponse::Success { status, headers, items } => {
            assert_eq!(*status, 200);
            assert_eq!(
                headers,
                &vec![("content-type".to_string(), "application/json".to_string())]
            );
            assert_eq!(items, &vec![RelayItem::Bytes(b"{\"answer\":42}".to_vec())]);
        }
        _ => panic!("expected a success response"),
    }
    assert_eq!(r.wallet_sends, vec![PAYMENT_AMOUNT_SATS]);
    assert!(r.receives.is_empty());
    assert_eq!(r.upstream_calls.len(), 1);
    let q = &r.upstream_calls[0];
    assert_eq!(q.method, Method::Post);
    assert_eq!(q.url, "https://upstream.example/v1/chat/completions");
    assert_eq!(q.body, Some("{\"model\":\"m\"}".to_string()));
    assert_eq!(
        q.headers,
        vec![
            ("authorization".to_string(), "Bearer key-under-test".to_string()),
            ("content-type".to_string(), "application/json".to_string()),
            ("x-payment-sats".to_string(), "tok".to_string()),
        ]
    );
}

#[test]
fn streaming_three_chunks_arrive_in_order_with_defaulted_content_type() {
    let upstream = ok_outcome(&[("x-request-id", "r1")], &[b"a", b"b", b"c"]);
    let r = forward_request_with_payment_with_body(
        &Operation::ChatCompletions,
        &Some("{\"stream\":true}".to_string()),
        &Some("text/event-stream".to_string()),
        true,
        &config(),
        &Ok("tok".to_string()),
        &upstream,
    );
    match &r.response {
        GatewayResponse::Success { status, headers, items } => {
            assert_eq!(*status, 200);
            assert_eq!(
                headers,
                &vec![
                    ("content-type".to_string(), "text/event-stream".to_string()),
                    ("x-request-id".to_string(), "r1".to_string()),
                ]
            );
            assert_eq!(
                items,
                &vec![
                    RelayItem::Bytes(b"a".to_vec()),
                    RelayItem::Bytes(b"b".to_vec()),
                    RelayItem::Bytes(b"c".to_vec()),
                ]
            );
        }
        _ => panic!("expected a success response"),
    }
    let plan = r.client;
    assert_eq!(plan, plan_client(true));
    assert_eq!(plan.timeout_secs, Some(300));
    assert!(!plan.pool_reuse);
    assert_eq!(
        r.upstream_calls[0].headers[3],
        ("accept".to_string(), "text/event-stream".to_string())
    );
}

#[test]
fn refund_header_triggers_exactly_one_receive_with_that_amount() {
    let with_refund = ok_outcome(
        &[("content-type", "application/json"), ("x-change-sats", "3")],
        &[b"{}"],
    );
    let r = run_plain(config(), Ok("tok".to_string()), with_refund);
    assert_eq!(r.receives, vec!["3".to_string()]);

    let without_refund = ok_outcome(&[("content-type", "application/json")], &[b"{}"]);
    let r2 = run_plain(config(), Ok("tok".to_string()), without_refund);
    assert!(r2.receives.is_empty());

    // The refund submission's outcome reaches at most the log: the two
    // responses above were already complete before it, and an absorption
    // failure produces no line at all.
    assert_eq!(
        change_log_line(&Ok("21".to_string())),
        Some("received change, balance: '21'".to_string())
    );
    assert_eq!(change_log_line(&Err("wallet briefly away".to_string())), None);
}

#[test]
fn bodiless_forward_uses_get_without_streaming() {
    let upstream = ok_outcome(&[("content-type", "application/json")], &[b"{\"data\":[]}"]);
    let r = forward_request_with_payment(
        &Operation::ListModels,
        &None,
        &config(),
        &Ok("tok".to_string()),
        &upstream,
    );
    assert_eq!(r.upstream_calls.len(), 1);
    let q = &r.upstream_calls[0];
    assert_eq!(q.method, Method::Get);
    assert_eq!(q.url, "https://upstream.example/v1/models");
    assert_eq!(q.body, None);
    assert_eq!(r.client, plan_client(false));
    assert_eq!(r.client.timeout_secs, None);
    assert!(r.client.pool_reuse);
}

#[test]
fn endpoint_urls_per_operation() {
    let base = "https://u.example";
    assert_eq!(
        endpoint_url(&Operation::ChatCompletions, base),
        "https://u.example/v1/chat/completions"
    );
    assert_eq!(endpoint_url(&Operation::ListModels, base), "https://u.example/v1/models");
    assert_eq!(
        endpoint_url(&Operation::GetModel("gpt-x".to_string()), base),
        "https://u.example/v1/models/gpt-x"
    );
    assert_eq!(endpoint_url(&Operation::Embeddings, base), "https://u.example/v1/embeddings");
    assert_eq!(
        endpoint_url(&Operation::ImageGenerations, base),
        "https://u.example/v1/images/generations"
    );
}

#[test]
fn streaming_is_opt_in_and_chat_only() {
    assert!(is_streaming_call(&Operation::ChatCompletions, Some(true)));
    assert!(!is_streaming_call(&Operation::ChatCompletions, Some(false)));
    assert!(!is_streaming_call(&Operation::ChatCompletions, None));
    assert!(!is_streaming_call(&Operation::Embeddings, Some(true)));
    assert!(!is_streaming_call(&Operation::ImageGenerations, Some(true)));
}

#[test]
fn build_request_without_accept_has_three_headers() {
    let q = build_request(
        "https://u.example/v1/models".to_string(),
        None,
        "key",
        "token",
        &None,
    );
    assert_eq!(q.method, Method::Get);
    assert_eq!(
        q.headers,
        vec![
            ("authorization".to_string(), "Bearer key".to_string()),
            ("content-type".to_string(), "application/json".to_string()),
            ("x-payment-sats".to_string(), "token".to_string()),
        ]
    );
}
