//! A payment-gated forwarding gateway core.
//!
//! For each inbound API request the gateway resolves an upstream target,
//! acquires a one-time payment token from a wallet service, attaches it to
//! the outbound request, forwards the request, and relays the (possibly
//! streamed) response back to the caller, absorbing any refunded change the
//! upstream returns.  This crate holds the decision logic of that lifecycle:
//! which collaborator is called when, what the outbound request looks like,
//! which headers are forwarded, how stream chunks are relayed, and how every
//! failure maps to a structured error response.  The blocking calls
//! themselves (configuration lookup, wallet, HTTP) are made by a thin
//! unverified shell that drives these functions.

pub mod config;
pub mod errors;
pub mod gateway;
pub mod headers;
pub mod relay;
pub mod request;
