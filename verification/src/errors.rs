//! The gateway's error taxonomy and the structured JSON error bodies it
//! sends: `{"error":{"message":...,"type":...,"param":null,"code":...}}`.
//!
//! Every failure before the first response byte is mapped to one of these
//! bodies with a 4xx/5xx status.  The message may embed an arbitrary cause
//! string, so the body is rendered through a verified JSON string escaper.

use vstd::prelude::*;
use vstd::string::StringExecFns;

verus! {

/// The error kinds a response body can carry in its `type` field.
#[derive(Clone, Copy, PartialEq, Eq, Debug)]
pub enum ErrorKind {
    /// The gateway itself cannot serve the request (no upstream configured).
    ServerError,
    /// The wallet could not mint a payment token.
    PaymentError,
    /// The upstream could not be reached.
    GatewayError,
}

/// The label that each kind writes into the body's `type` field.
pub open spec fn kind_label(k: ErrorKind) -> Seq<char> {
    match k {
        ErrorKind::ServerError => "server_error"@,
        ErrorKind::PaymentError => "payment_error"@,
        ErrorKind::GatewayError => "gateway_error"@,
    }
}

/// The HTTP status that each kind is reported with: a missing
/// configuration is the caller's problem (400), the rest are the
/// gateway's (500).
pub open spec fn status_of_kind(k: ErrorKind) -> u16 {
    match k {
        ErrorKind::ServerError => 400u16,
        ErrorKind::PaymentError => 500u16,
        ErrorKind::GatewayError => 500u16,
    }
}

/// Writes the `type` label of a kind.
pub fn kind_label_str(k: ErrorKind) -> (r: String)
    ensures
        r@ == kind_label(k),
{
    match k {
        ErrorKind::ServerError => String::from_str("server_error"),
        ErrorKind::PaymentError => String::from_str("payment_error"),
        ErrorKind::GatewayError => String::from_str("gateway_error"),
    }
}

/// Returns the HTTP status of a kind.
pub fn status_for(k: ErrorKind) -> (s: u16)
    ensures
        s == status_of_kind(k),
{
    match k {
        ErrorKind::ServerError => 400,
        ErrorKind::PaymentError => 500,
        ErrorKind::GatewayError => 500,
    }
}

/// Relies on `String::push`: appends exactly the given character.
pub assume_specification[ String::push ](s: &mut String, c: char)
    ensures
        final(s)@ == old(s)@.push(c),
;

/// The hexadecimal digit for a value below 16 (lower case).
pub open spec fn hex_char(n: int) -> char {
    if n == 0 { '0' }
    else if n == 1 { '1' }
    else if n == 2 { '2' }
    else if n == 3 { '3' }
    else if n == 4 { '4' }
    else if n == 5 { '5' }
    else if n == 6 { '6' }
    else if n == 7 { '7' }
    else if n == 8 { '8' }
    else if n == 9 { '9' }
    else if n == 10 { 'a' }
    else if n == 11 { 'b' }
    else if n == 12 { 'c' }
    else if n == 13 { 'd' }
    else if n == 14 { 'e' }
    else { 'f' }
}

/// How one character appears inside a JSON string literal: quotes and
/// backslashes are escaped, the common control characters get their
/// short escapes, the remaining control characters a `\u00XX` escape,
/// and everything else stands verbatim.
pub open spec fn escape_char(c: char) -> Seq<char> {
    if c == '"' { seq!['\\', '"'] }
    else if c == '\\' { seq!['\\', '\\'] }
    else if c == '\n' { seq!['\\', 'n'] }
    else if c == '\r' { seq!['\\', 'r'] }
    else if c == '\t' { seq!['\\', 't'] }
    else if (c as u32) < 32 {
        seq!['\\', 'u', '0', '0', hex_char((c as u32 / 16) as int), hex_char((c as u32 % 16) as int)]
    } else {
        seq![c]
    }
}

/// How a whole string appears inside a JSON string literal.
pub open spec fn escape_string(s: Seq<char>) -> Seq<char>
    decreases s.len(),
{
    if s.len() == 0 {
        Seq::empty()
    } else {
        escape_char(s[0]) + escape_string(s.skip(1))
    }
}

proof fn lemma_escape_string_push(s: Seq<char>, c: char)
    ensures
        escape_string(s.push(c)) == escape_string(s) + escape_char(c),
    decreases s.len(),
{
    assert(s.push(c)[0] == if s.len() == 0 { c } else { s[0] });
    if s.len() == 0 {
        assert(s.push(c).skip(1) =~= Seq::<char>::empty());
        assert(escape_string(s.push(c)) == escape_char(c) + escape_string(Seq::<char>::empty()));
        assert(escape_string(s.push(c)) =~= escape_string(s) + escape_char(c));
    } else {
        assert(s.push(c).skip(1) =~= s.skip(1).push(c));
        lemma_escape_string_push(s.skip(1), c);
        assert(escape_string(s.push(c)) == escape_char(s[0]) + (escape_string(s.skip(1)) + escape_char(c)));
        assert(escape_string(s.push(c)) =~= escape_string(s) + escape_char(c));
    }
}

/// Escapes a string for inclusion in a JSON string literal.
pub fn json_escape(s: &str) -> (r: String)
    ensures
        r@ == escape_string(s@),
{
    let n = s.unicode_len();
    let mut r = String::new();
    let mut i: usize = 0;
    while i < n
        invariant
            n == s@.len(),
            0 <= i <= n,
            r@ == escape_string(s@.take(i as int)),
        decreases n - i,
    {
        let c = s.get_char(i);
        proof {
            assert(s@.take(i as int).push(c) =~= s@.take(i + 1 as int));
            lemma_escape_string_push(s@.take(i as int), c);
        }
        if c == '"' {
            r.push('\\');
            r.push('"');
        } else if c == '\\' {
            r.push('\\');
            r.push('\\');
        } else if c == '\n' {
            r.push('\\');
            r.push('n');
        } else if c == '\r' {
            r.push('\\');
            r.push('r');
        } else if c == '\t' {
            r.push('\\');
            r.push('t');
        } else if (c as u32) < 32 {
            r.push('\\');
            r.push('u');
            r.push('0');
            r.push('0');
            r.push(hex_char_of((c as u32) / 16));
            r.push(hex_char_of((c as u32) % 16));
            proof {
                assert(r@ =~= escape_string(s@.take(i + 1 as int)));
            }
        } else {
            r.push(c);
        }
        i = i + 1;
    }
    proof {
        assert(s@.take(n as int) =~= s@);
    }
    r
}

/// The JSON error body for a kind, message and optional machine-readable
/// code: `{"error":{"message":<m>,"type":<label>,"param":null[,"code":<c>]}}`,
/// with the message and the code escaped as JSON string literals.
pub open spec fn error_body(k: ErrorKind, message: Seq<char>, code: Option<Seq<char>>) -> Seq<char> {
    "{\"error\":{\"message\":\""@ + escape_string(message) + "\",\"type\":\""@ + kind_label(k)
        + "\",\"param\":null"@ + (match code {
        Some(c) => ",\"code\":\""@ + escape_string(c) + "\""@,
        None => Seq::<char>::empty(),
    }) + "}}"@
}

/// A complete structured error response: the HTTP status and the JSON body.
#[derive(Clone, Debug, PartialEq, Eq)]
pub struct ErrorResponse {
    pub status: u16,
    pub body: String,
}

/// The mathematical value of an [`ErrorResponse`].
#[verifier::ext_equal]
pub struct ErrorResponseView {
    pub status: u16,
    pub body: Seq<char>,
}

impl View for ErrorResponse {
    type V = ErrorResponseView;

    open spec fn view(&self) -> ErrorResponseView {
        ErrorResponseView { status: self.status, body: self.body@ }
    }
}

/// Renders the structured error response for a kind, a message and an
/// optional code, with the status that the kind prescribes.
pub fn render_error(k: ErrorKind, message: &str, code: Option<&str>) -> (r: ErrorResponse)
    ensures
        r.status == status_of_kind(k),
        r.body@ == error_body(k, message@, match code {
            Some(c) => Some(c@),
            None => None,
        }),
{
    let mut body = String::from_str("{\"error\":{\"message\":\"");
    let escaped = json_escape(message);
    body.append(escaped.as_str());
    body.append("\",\"type\":\"");
    let label = kind_label_str(k);
    body.append(label.as_str());
    body.append("\",\"param\":null");
    if let Some(c) = code {
        body.append(",\"code\":\"");
        let escaped_code = json_escape(c);
        body.append(escaped_code.as_str());
        body.append("\"");
    }
    body.append("}}");
    let status = status_for(k);
    ErrorResponse { status, body }
}

/// The message reported when no upstream configuration is resolved.
pub open spec fn config_missing_message() -> Seq<char> {
    "Server configuration missing. Cannot process request without a configured endpoint."@
}

/// The error response for a request that found no upstream configured:
/// `400`, kind `server_error`, code `server_config_missing`.
pub fn config_missing_response() -> (r: ErrorResponse)
    ensures
        r.status == 400,
        r.body@ == error_body(
            ErrorKind::ServerError,
            config_missing_message(),
            Some("server_config_missing"@),
        ),
{
    render_error(
        ErrorKind::ServerError,
        "Server configuration missing. Cannot process request without a configured endpoint.",
        Some("server_config_missing"),
    )
}

/// The message prefix in front of the wallet's failure cause.
pub open spec fn payment_failure_message(cause: Seq<char>) -> Seq<char> {
    "Failed to generate payment token: "@ + cause
}

/// The error response when the wallet could not mint a token: `500`,
/// kind `payment_error`, the cause embedded in the message.
pub fn payment_error_response(cause: &str) -> (r: ErrorResponse)
    ensures
        r.status == 500,
        r.body@ == error_body(ErrorKind::PaymentError, payment_failure_message(cause@), None),
{
    let mut message = String::from_str("Failed to generate payment token: ");
    message.append(cause);
    render_error(ErrorKind::PaymentError, message.as_str(), None)
}

/// The message prefix in front of the transport's failure cause.
pub open spec fn gateway_failure_message(cause: Seq<char>) -> Seq<char> {
    "Error forwarding request: "@ + cause
}

/// The error response when the upstream could not be reached: `500`,
/// kind `gateway_error`, the cause embedded in the message.
pub fn gateway_error_response(cause: &str) -> (r: ErrorResponse)
    ensures
        r.status == 500,
        r.body@ == error_body(ErrorKind::GatewayError, gateway_failure_message(cause@), None),
{
    let mut message = String::from_str("Error forwarding request: ");
    message.append(cause);
    render_error(ErrorKind::GatewayError, message.as_str(), None)
}

/// The fallback when assembling the outbound response itself fails: a
/// plain-text `500`.  By then the structured error paths are no longer
/// reachable, so the body is not JSON; the failure is logged by the
/// shell and converted to this generic response.
pub fn response_build_failure() -> (r: ErrorResponse)
    ensures
        r.status == 500,
        r.body@ == "Error creating streaming response"@,
{
    ErrorResponse { status: 500, body: String::from_str("Error creating streaming response") }
}

/// Returns the hexadecimal digit of a value below 16.
fn hex_char_of(n: u32) -> (c: char)
    requires
        n < 16,
    ensures
        c == hex_char(n as int),
{
    if n == 0 { '0' }
    else if n == 1 { '1' }
    else if n == 2 { '2' }
    else if n == 3 { '3' }
    else if n == 4 { '4' }
    else if n == 5 { '5' }
    else if n == 6 { '6' }
    else if n == 7 { '7' }
    else if n == 8 { '8' }
    else if n == 9 { '9' }
    else if n == 10 { 'a' }
    else if n == 11 { 'b' }
    else if n == 12 { 'c' }
    else if n == 13 { 'd' }
    else if n == 14 { 'e' }
    else { 'f' }
}

} // verus!
