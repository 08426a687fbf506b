//! The upstream configuration resolved per request, and the plan for the
//! HTTP client that a forwarded call uses.

use vstd::prelude::*;

verus! {

/// What the configuration store hands back for the active tenant: the
/// upstream base address and the credential to present to it.  Fetched
/// fresh per request; absence is a valid state ("not configured").
#[derive(Clone, Debug, PartialEq, Eq)]
pub struct UpstreamConfig {
    pub endpoint: String,
    pub api_key: String,
}

/// The mathematical value of an [`UpstreamConfig`].
pub struct UpstreamConfigView {
    pub endpoint: Seq<char>,
    pub api_key: Seq<char>,
}

impl View for UpstreamConfig {
    type V = UpstreamConfigView;

    open spec fn view(&self) -> UpstreamConfigView {
        UpstreamConfigView { endpoint: self.endpoint@, api_key: self.api_key@ }
    }
}

/// The number of seconds a streamed call may run before the transport
/// gives up on it: long-lived streams must not be killed prematurely.
pub const STREAMING_TIMEOUT_SECS: u64 = 300;

/// How the HTTP client for one forwarded call is to be configured.
/// A streamed call gets an extended timeout and a fresh connection
/// (no reuse of a pooled one, which could silently truncate a
/// long-lived stream); a plain call keeps the transport defaults.
#[derive(Clone, Copy, PartialEq, Eq, Debug)]
pub struct ClientPlan {
    pub timeout_secs: Option<u64>,
    pub pool_reuse: bool,
}

/// The client plan that a call with the given streaming mode uses.
pub open spec fn client_plan_of(is_streaming: bool) -> ClientPlan {
    if is_streaming {
        ClientPlan { timeout_secs: Some(STREAMING_TIMEOUT_SECS), pool_reuse: false }
    } else {
        ClientPlan { timeout_secs: None, pool_reuse: true }
    }
}

/// Chooses the client configuration for one forwarded call.
pub fn plan_client(is_streaming: bool) -> (p: ClientPlan)
    ensures
        p == client_plan_of(is_streaming),
{
    if is_streaming {
        ClientPlan { timeout_secs: Some(STREAMING_TIMEOUT_SECS), pool_reuse: false }
    } else {
        ClientPlan { timeout_secs: None, pool_reuse: true }
    }
}

} // verus!
