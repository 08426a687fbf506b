//! The request builder: which upstream operation maps to which path, which
//! HTTP method a call uses, and the exact outbound header set.

use vstd::prelude::*;
use vstd::string::StringExecFns;
use crate::headers::HeadersView;

verus! {

/// The upstream capabilities the gateway forwards to.
#[derive(Clone, Debug, PartialEq, Eq)]
pub enum Operation {
    ChatCompletions,
    ListModels,
    GetModel(String),
    Embeddings,
    ImageGenerations,
}

/// The path, relative to the upstream base address, that an operation is
/// served under.
pub open spec fn path_suffix(op: Operation) -> Seq<char> {
    match op {
        Operation::ChatCompletions => "/v1/chat/completions"@,
        Operation::ListModels => "/v1/models"@,
        Operation::GetModel(id) => "/v1/models/"@ + id@,
        Operation::Embeddings => "/v1/embeddings"@,
        Operation::ImageGenerations => "/v1/images/generations"@,
    }
}

/// The full URL of an operation at a given upstream base address.
pub fn endpoint_url(op: &Operation, base: &str) -> (r: String)
    ensures
        r@ == base@ + path_suffix(*op),
{
    let mut r = String::from_str(base);
    match op {
        Operation::ChatCompletions => r.append("/v1/chat/completions"),
        Operation::ListModels => r.append("/v1/models"),
        Operation::GetModel(id) => {
            r.append("/v1/models/");
            r.append(id.as_str());
        },
        Operation::Embeddings => r.append("/v1/embeddings"),
        Operation::ImageGenerations => r.append("/v1/images/generations"),
    }
    r
}

/// Whether an operation may stream its response at all.  Only a chat
/// completion is streaming-eligible, and only when the caller set the
/// streaming flag in its body.
pub open spec fn streaming_eligible(op: Operation) -> bool {
    op is ChatCompletions
}

/// Decides whether a call runs in streaming mode: the operation must be
/// streaming-eligible and the caller must have set its streaming flag
/// (an absent flag means no streaming).
pub fn is_streaming_call(op: &Operation, stream_flag: Option<bool>) -> (r: bool)
    ensures
        r == (streaming_eligible(*op) && stream_flag == Some(true)),
{
    match op {
        Operation::ChatCompletions => match stream_flag {
            Some(b) => b,
            None => false,
        },
        _ => false,
    }
}

/// The HTTP method of an outbound request.
#[derive(Clone, Copy, PartialEq, Eq, Debug)]
pub enum Method {
    Get,
    Post,
}

/// The method a call uses is solely a function of body presence: a body
/// means POST, no body means GET.
pub open spec fn method_for(body: Option<Seq<char>>) -> Method {
    if body is Some {
        Method::Post
    } else {
        Method::Get
    }
}

/// The exact outbound header set: the credential header (always taken
/// from the resolved configuration, never from the caller), the fixed
/// JSON content type, the payment header carrying the token, and the
/// caller's accept header copied through only when present.
pub open spec fn request_headers(
    api_key: Seq<char>,
    token: Seq<char>,
    accept: Option<Seq<char>>,
) -> HeadersView {
    seq![
        ("authorization"@, "Bearer "@ + api_key),
        ("content-type"@, "application/json"@),
        ("x-payment-sats"@, token),
    ] + (match accept {
        Some(a) => seq![("accept"@, a)],
        None => Seq::<(Seq<char>, Seq<char>)>::empty(),
    })
}

/// A complete outbound request, built fresh per forwarded call.
#[derive(Clone, Debug, PartialEq, Eq)]
pub struct ForwardedRequest {
    pub method: Method,
    pub url: String,
    pub body: Option<String>,
    pub headers: Vec<(String, String)>,
}

/// The mathematical value of a [`ForwardedRequest`].
#[verifier::ext_equal]
pub struct ForwardedRequestView {
    pub method: Method,
    pub url: Seq<char>,
    pub body: Option<Seq<char>>,
    pub headers: HeadersView,
}

impl View for ForwardedRequest {
    type V = ForwardedRequestView;

    open spec fn view(&self) -> ForwardedRequestView {
        ForwardedRequestView {
            method: self.method,
            url: self.url@,
            body: match self.body {
                Some(b) => Some(b@),
                None => None,
            },
            headers: crate::headers::headers_view(self.headers@),
        }
    }
}

/// The request that one forwarded call sends: method chosen by body
/// presence, the given URL, the body passed through verbatim, and
/// exactly the headers of [`request_headers`].
pub open spec fn built_request(
    url: Seq<char>,
    body: Option<Seq<char>>,
    api_key: Seq<char>,
    token: Seq<char>,
    accept: Option<Seq<char>>,
) -> ForwardedRequestView {
    ForwardedRequestView {
        method: method_for(body),
        url: url,
        body: body,
        headers: request_headers(api_key, token, accept),
    }
}

/// Builds the outbound request for one forwarded call.
pub fn build_request(
    url: String,
    body: Option<String>,
    api_key: &str,
    token: &str,
    accept: &Option<String>,
) -> (r: ForwardedRequest)
    ensures
        r@ == built_request(url@, match body {
            Some(b) => Some(b@),
            None => None,
        }, api_key@, token@, match accept {
            Some(a) => Some(a@),
            None => None,
        }),
{
    let method = if body.is_some() {
        Method::Post
    } else {
        Method::Get
    };
    let mut headers: Vec<(String, String)> = Vec::new();
    let mut bearer = String::from_str("Bearer ");
    bearer.append(api_key);
    headers.push((String::from_str("authorization"), bearer));
    headers.push((String::from_str("content-type"), String::from_str("application/json")));
    headers.push((String::from_str("x-payment-sats"), String::from_str(token)));
    if let Some(a) = accept {
        headers.push((String::from_str("accept"), a.clone()));
    }
    let r = ForwardedRequest { method, url, body, headers };
    proof {
        assert(r@.headers =~= request_headers(api_key@, token@, match accept {
            Some(a) => Some(a@),
            None => None,
        }));
    }
    r
}

} // verus!
