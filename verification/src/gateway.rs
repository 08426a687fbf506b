//! The gateway orchestrator: how one inbound request turns into at most
//! one wallet charge, at most one upstream call, at most one change
//! absorption, and exactly one response.
//!
//! A request's lifecycle is a straight line with no retries: resolve the
//! upstream configuration, charge the wallet for one payment token, send
//! the outbound request, then relay the response.  The first failure
//! aborts the whole request with a structured error response.  The
//! blocking calls themselves are made by the unverified shell that drives
//! this module; what stands here is the complete decision record of a
//! request — which collaborators are called with what, and what the
//! caller receives — as a function of the collaborators' outcomes.

use vstd::prelude::*;
use vstd::string::StringExecFns;
use crate::config::{client_plan_of, plan_client, ClientPlan, UpstreamConfig, UpstreamConfigView};
use crate::errors::{
    config_missing_message, config_missing_response, error_body, gateway_error_response,
    gateway_failure_message, payment_error_response, payment_failure_message, ErrorKind,
    ErrorResponse, ErrorResponseView,
};
use crate::headers::{filter_headers, headers_view, outbound_headers, refund_amount, refund_of, HeadersView};
use crate::relay::{events_view, items_view, relay_events, relayed, ChunkEvent, ChunkEventView, RelayItem, RelayItemView};
use crate::request::{
    build_request, built_request, endpoint_url, path_suffix, ForwardedRequest,
    ForwardedRequestView, Operation,
};

verus! {

/// The flat fee charged for every forwarded call, independent of the
/// operation's actual cost: one fixed denomination per request.
pub const PAYMENT_AMOUNT_SATS: u64 = 10;

/// What came back from a successful upstream send: the status, the
/// response headers, and the results of reading the response stream.
#[derive(Clone, Debug, PartialEq, Eq)]
pub struct UpstreamOutcome {
    pub status: u16,
    pub headers: Vec<(String, String)>,
    pub events: Vec<ChunkEvent>,
}

/// The mathematical value of an [`UpstreamOutcome`].
#[verifier::ext_equal]
pub struct UpstreamOutcomeView {
    pub status: u16,
    pub headers: HeadersView,
    pub events: Seq<ChunkEventView>,
}

impl View for UpstreamOutcome {
    type V = UpstreamOutcomeView;

    open spec fn view(&self) -> UpstreamOutcomeView {
        UpstreamOutcomeView {
            status: self.status,
            headers: headers_view(self.headers@),
            events: events_view(self.events@),
        }
    }
}

/// What the caller receives: a structured error, or the upstream's
/// status with the filtered headers and the relayed body chunks.
#[derive(Clone, Debug, PartialEq, Eq)]
pub enum GatewayResponse {
    Error(ErrorResponse),
    Success { status: u16, headers: Vec<(String, String)>, items: Vec<RelayItem> },
}

/// The mathematical value of a [`GatewayResponse`].
#[verifier::ext_equal]
pub enum GatewayResponseView {
    Error(ErrorResponseView),
    Success { status: u16, headers: HeadersView, items: Seq<RelayItemView> },
}

impl View for GatewayResponse {
    type V = GatewayResponseView;

    open spec fn view(&self) -> GatewayResponseView {
        match self {
            GatewayResponse::Error(e) => GatewayResponseView::Error(e@),
            GatewayResponse::Success { status, headers, items } => GatewayResponseView::Success {
                status: *status,
                headers: headers_view(headers@),
                items: items_view(items@),
            },
        }
    }
}

/// The complete decision record of one request: the response, the client
/// plan, and every collaborator call the gateway makes — the wallet
/// charges, the upstream sends, and the refund submissions, each in
/// order.
#[derive(Clone, Debug, PartialEq, Eq)]
pub struct RunRecord {
    pub response: GatewayResponse,
    pub client: ClientPlan,
    pub wallet_sends: Vec<u64>,
    pub upstream_calls: Vec<ForwardedRequest>,
    pub receives: Vec<String>,
}

/// The mathematical value of a [`RunRecord`].
#[verifier::ext_equal]
pub struct RunRecordView {
    pub response: GatewayResponseView,
    pub client: ClientPlan,
    pub wallet_sends: Seq<u64>,
    pub upstream_calls: Seq<ForwardedRequestView>,
    pub receives: Seq<Seq<char>>,
}

impl View for RunRecord {
    type V = RunRecordView;

    open spec fn view(&self) -> RunRecordView {
        RunRecordView {
            response: self.response@,
            client: self.client,
            wallet_sends: self.wallet_sends@,
            upstream_calls: self.upstream_calls@.map_values(|q: ForwardedRequest| q@),
            receives: self.receives@.map_values(|s: String| s@),
        }
    }
}

/// The decision record that one request produces, as a function of the
/// operation, the inbound body and accept header, the streaming mode,
/// and the three collaborator outcomes.  A missing configuration rejects
/// the request before any wallet call; a wallet failure stops it before
/// the upstream send; an upstream transport failure maps to a gateway
/// error; a success is relayed with filtered headers, and a refund
/// header triggers exactly one change submission.
pub open spec fn run_model(
    op: Operation,
    body: Option<Seq<char>>,
    accept: Option<Seq<char>>,
    is_streaming: bool,
    config: Option<UpstreamConfigView>,
    token_result: Result<Seq<char>, Seq<char>>,
    upstream_result: Result<UpstreamOutcomeView, Seq<char>>,
) -> RunRecordView {
    let client = client_plan_of(is_streaming);
    match config {
        None => RunRecordView {
            response: GatewayResponseView::Error(
                ErrorResponseView {
                    status: 400,
                    body: error_body(
                        ErrorKind::ServerError,
                        config_missing_message(),
                        Some("server_config_missing"@),
                    ),
                },
            ),
            client,
            wallet_sends: Seq::empty(),
            upstream_calls: Seq::empty(),
            receives: Seq::empty(),
        },
        Some(cfg) => {
            let wallet_sends = seq![PAYMENT_AMOUNT_SATS];
            match token_result {
                Err(cause) => RunRecordView {
                    response: GatewayResponseView::Error(
                        ErrorResponseView {
                            status: 500,
                            body: error_body(
                                ErrorKind::PaymentError,
                                payment_failure_message(cause),
                                None,
                            ),
                        },
                    ),
                    client,
                    wallet_sends,
                    upstream_calls: Seq::empty(),
                    receives: Seq::empty(),
                },
                Ok(token) => {
                    let request = built_request(
                        cfg.endpoint + path_suffix(op),
                        body,
                        cfg.api_key,
                        token,
                        accept,
                    );
                    match upstream_result {
                        Err(cause) => RunRecordView {
                            response: GatewayResponseView::Error(
                                ErrorResponseView {
                                    status: 500,
                                    body: error_body(
                                        ErrorKind::GatewayError,
                                        gateway_failure_message(cause),
                                        None,
                                    ),
                                },
                            ),
                            client,
                            wallet_sends,
                            upstream_calls: seq![request],
                            receives: Seq::empty(),
                        },
                        Ok(out) => RunRecordView {
                            response: GatewayResponseView::Success {
                                status: out.status,
                                headers: outbound_headers(out.headers, is_streaming),
                                items: relayed(out.events),
                            },
                            client,
                            wallet_sends,
                            upstream_calls: seq![request],
                            receives: match refund_of(out.headers) {
                                Some(v) => seq![v],
                                None => Seq::empty(),
                            },
                        },
                    }
                },
            }
        },
    }
}

/// The value of an optional string.
pub open spec fn opt_view(s: &Option<String>) -> Option<Seq<char>> {
    match s {
        Some(v) => Some(v@),
        None => None,
    }
}

/// Runs the decision logic of one forwarded call with a body.  The
/// collaborator outcomes are passed in as the shell observed them; the
/// record says which of them the gateway actually asked for (a wallet
/// outcome is meaningful only when a wallet charge stands in the record,
/// an upstream outcome only when an upstream call does) and what the
/// caller receives.
pub fn forward_request_with_payment_with_body(
    op: &Operation,
    body: &Option<String>,
    accept: &Option<String>,
    is_streaming: bool,
    config: &Option<UpstreamConfig>,
    token_result: &Result<String, String>,
    upstream_result: &Result<UpstreamOutcome, String>,
) -> (r: RunRecord)
    ensures
        r@ == run_model(
            *op,
            opt_view(body),
            opt_view(accept),
            is_streaming,
            match config {
                Some(c) => Some(c@),
                None => None,
            },
            match token_result {
                Ok(t) => Ok(t@),
                Err(e) => Err(e@),
            },
            match upstream_result {
                Ok(o) => Ok(o@),
                Err(e) => Err(e@),
            },
        ),
{
    let client = plan_client(is_streaming);
    let cfg = match config {
        Some(c) => c,
        None => {
            let r = RunRecord {
                response: GatewayResponse::Error(config_missing_response()),
                client,
                wallet_sends: Vec::new(),
                upstream_calls: Vec::new(),
                receives: Vec::new(),
            };
            proof {
                assert(r@ =~~= run_model(
                    *op,
                    opt_view(body),
                    opt_view(accept),
                    is_streaming,
                    None,
                    match token_result {
                        Ok(t) => Ok(t@),
                        Err(e) => Err(e@),
                    },
                    match upstream_result {
                        Ok(o) => Ok(o@),
                        Err(e) => Err(e@),
                    },
                ));
            }
            return r;
        },
    };
    let mut wallet_sends: Vec<u64> = Vec::new();
    wallet_sends.push(PAYMENT_AMOUNT_SATS);
    let token = match token_result {
        Ok(t) => t,
        Err(e) => {
            let r = RunRecord {
                response: GatewayResponse::Error(payment_error_response(e.as_str())),
                client,
                wallet_sends,
                upstream_calls: Vec::new(),
                receives: Vec::new(),
            };
            proof {
                assert(r@ =~~= run_model(
                    *op,
                    opt_view(body),
                    opt_view(accept),
                    is_streaming,
                    Some(cfg@),
                    Err(token_result->Err_0@),
                    match upstream_result {
                        Ok(o) => Ok(o@),
                        Err(e2) => Err(e2@),
                    },
                ));
            }
            return r;
        },
    };
    let url = endpoint_url(op, cfg.endpoint.as_str());
    let body_copy = match body {
        Some(b) => Some(b.clone()),
        None => None,
    };
    let request = build_request(url, body_copy, cfg.api_key.as_str(), token.as_str(), accept);
    let mut upstream_calls: Vec<ForwardedRequest> = Vec::new();
    upstream_calls.push(request);
    match upstream_result {
        Err(e) => {
            let r = RunRecord {
                response: GatewayResponse::Error(gateway_error_response(e.as_str())),
                client,
                wallet_sends,
                upstream_calls,
                receives: Vec::new(),
            };
            proof {
                assert(r@ =~~= run_model(
                    *op,
                    opt_view(body),
                    opt_view(accept),
                    is_streaming,
                    Some(cfg@),
                    Ok(token@),
                    Err(upstream_result->Err_0@),
                ));
            }
            r
        },
        Ok(out) => {
            let headers = filter_headers(&out.headers, is_streaming);
            let items = relay_events(&out.events);
            let mut receives: Vec<String> = Vec::new();
            if let Some(amount) = refund_amount(&out.headers) {
                receives.push(amount);
            }
            let r = RunRecord {
                response: GatewayResponse::Success { status: out.status, headers, items },
                client,
                wallet_sends,
                upstream_calls,
                receives,
            };
            proof {
                assert(r@ =~~= run_model(
                    *op,
                    opt_view(body),
                    opt_view(accept),
                    is_streaming,
                    Some(cfg@),
                    Ok(token@),
                    Ok(out@),
                ));
            }
            r
        },
    }
}

/// Runs the decision logic of one forwarded call without a body: a GET
/// with no streaming, as a bodiless call always is.
pub fn forward_request_with_payment(
    op: &Operation,
    accept: &Option<String>,
    config: &Option<UpstreamConfig>,
    token_result: &Result<String, String>,
    upstream_result: &Result<UpstreamOutcome, String>,
) -> (r: RunRecord)
    ensures
        r@ == run_model(
            *op,
            None,
            opt_view(accept),
            false,
            match config {
                Some(c) => Some(c@),
                None => None,
            },
            match token_result {
                Ok(t) => Ok(t@),
                Err(e) => Err(e@),
            },
            match upstream_result {
                Ok(o) => Ok(o@),
                Err(e) => Err(e@),
            },
        ),
{
    let no_body: Option<String> = None;
    forward_request_with_payment_with_body(
        op,
        &no_body,
        accept,
        false,
        config,
        token_result,
        upstream_result,
    )
}

/// When the configuration store reports no configuration, the result is
/// always a `400` with the `server_config_missing` code, and no wallet
/// call of any kind — neither a charge nor a refund — and no upstream
/// call is made, whatever the request and the other outcomes were.
pub proof fn lemma_missing_config_rejects(
    op: Operation,
    body: Option<Seq<char>>,
    accept: Option<Seq<char>>,
    is_streaming: bool,
    token_result: Result<Seq<char>, Seq<char>>,
    upstream_result: Result<UpstreamOutcomeView, Seq<char>>,
)
    ensures
        ({
            let r = run_model(op, body, accept, is_streaming, None, token_result, upstream_result);
            &&& r.response == GatewayResponseView::Error(
                ErrorResponseView {
                    status: 400,
                    body: error_body(
                        ErrorKind::ServerError,
                        config_missing_message(),
                        Some("server_config_missing"@),
                    ),
                },
            )
            &&& r.wallet_sends.len() == 0
            &&& r.upstream_calls.len() == 0
            &&& r.receives.len() == 0
        }),
{
}

/// Exactly one wallet charge is made if and only if configuration
/// resolution succeeded, regardless of the request type and of every
/// later outcome — and that charge is always the flat fee.
pub proof fn lemma_one_charge_iff_configured(
    op: Operation,
    body: Option<Seq<char>>,
    accept: Option<Seq<char>>,
    is_streaming: bool,
    config: Option<UpstreamConfigView>,
    token_result: Result<Seq<char>, Seq<char>>,
    upstream_result: Result<UpstreamOutcomeView, Seq<char>>,
)
    ensures
        run_model(op, body, accept, is_streaming, config, token_result, upstream_result)
            .wallet_sends == (if config is Some {
            seq![PAYMENT_AMOUNT_SATS]
        } else {
            Seq::<u64>::empty()
        }),
{
}

/// When the wallet cannot mint a token, the response is a `500` of kind
/// `payment_error` and the upstream is never contacted, nor is any
/// refund submitted.
pub proof fn lemma_payment_failure_short_circuits(
    op: Operation,
    body: Option<Seq<char>>,
    accept: Option<Seq<char>>,
    is_streaming: bool,
    cfg: UpstreamConfigView,
    cause: Seq<char>,
    upstream_result: Result<UpstreamOutcomeView, Seq<char>>,
)
    ensures
        ({
            let r = run_model(
                op,
                body,
                accept,
                is_streaming,
                Some(cfg),
                Err(cause),
                upstream_result,
            );
            &&& r.response == GatewayResponseView::Error(
                ErrorResponseView {
                    status: 500,
                    body: error_body(
                        ErrorKind::PaymentError,
                        payment_failure_message(cause),
                        None,
                    ),
                },
            )
            &&& r.upstream_calls.len() == 0
            &&& r.receives.len() == 0
        }),
{
}

/// A refund header in the upstream response triggers exactly one change
/// submission carrying that amount; its absence triggers none.  The
/// response is fully determined by the upstream outcome alone — the
/// change submission's own outcome is not an input of the model at all,
/// so its failure can never alter the status or the body.
pub proof fn lemma_change_absorbed_exactly_once(
    op: Operation,
    body: Option<Seq<char>>,
    accept: Option<Seq<char>>,
    is_streaming: bool,
    cfg: UpstreamConfigView,
    token: Seq<char>,
    out: UpstreamOutcomeView,
)
    ensures
        ({
            let r = run_model(op, body, accept, is_streaming, Some(cfg), Ok(token), Ok(out));
            &&& r.receives == (match refund_of(out.headers) {
                Some(v) => seq![v],
                None => Seq::<Seq<char>>::empty(),
            })
            &&& r.response == GatewayResponseView::Success {
                status: out.status,
                headers: outbound_headers(out.headers, is_streaming),
                items: relayed(out.events),
            }
        }),
{
}

/// The line logged when a change absorption came back: its outcome turns
/// into at most a log line and never into a change of the response.
pub fn change_log_line(balance_result: &Result<String, String>) -> (r: Option<String>)
    ensures
        match balance_result {
            Ok(b) => r matches Some(line) && line@ == "received change, balance: '"@ + b@ + "'"@,
            Err(_) => r is None,
        },
{
    match balance_result {
        Ok(b) => {
            let mut line = String::from_str("received change, balance: '");
            line.append(b.as_str());
            line.append("'");
            Some(line)
        },
        Err(_) => None,
    }
}

} // verus!
