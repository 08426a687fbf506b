//! The header filter: which upstream response headers are copied to the
//! caller, and how the refund header is read.
//!
//! Header names are kept in their normalized lower-case form, as an HTTP
//! header map hands them out.  A header set is a sequence of name/value
//! pairs; its mathematical value is a `Seq` of pairs of character
//! sequences.

use vstd::prelude::*;
use vstd::string::StringExecFns;

verus! {

/// The mathematical value of a header set.
pub type HeadersView = Seq<(Seq<char>, Seq<char>)>;

/// The value of an executable header set.
pub open spec fn headers_view(hs: Seq<(String, String)>) -> HeadersView {
    hs.map_values(|p: (String, String)| (p.0@, p.1@))
}

/// Whether a header is a connection-management header: the hop-by-hop
/// connection indicator or the chunked-transfer-encoding indicator.
/// These are artifacts of the proxy's own outbound connection and must
/// not be forwarded across the proxy boundary.
pub open spec fn is_connection_header(name: Seq<char>) -> bool {
    name == "connection"@ || name == "transfer-encoding"@
}

/// The upstream headers that are forwarded: all of them, in order,
/// except the connection-management headers.
pub open spec fn forwarded_headers(hs: HeadersView) -> HeadersView
    decreases hs.len(),
{
    if hs.len() == 0 {
        Seq::empty()
    } else {
        forwarded_headers(hs.drop_last()) + (if is_connection_header(hs.last().0) {
            Seq::empty()
        } else {
            seq![hs.last()]
        })
    }
}

/// Whether a header set holds a header of the given name.
pub open spec fn has_header(hs: HeadersView, name: Seq<char>) -> bool {
    exists|i: int| 0 <= i < hs.len() && hs[i].0 == name
}

/// The caller-facing header set for an upstream header set: the forwarded
/// headers, preceded by an injected event-stream content type when the
/// request asked for streaming and the upstream did not name one (so
/// clients can detect incremental delivery).
pub open spec fn outbound_headers(hs: HeadersView, is_streaming: bool) -> HeadersView {
    if is_streaming && !has_header(hs, "content-type"@) {
        seq![("content-type"@, "text/event-stream"@)] + forwarded_headers(hs)
    } else {
        forwarded_headers(hs)
    }
}

/// Whether a header name is a connection-management header.
pub fn is_connection_header_name(name: &String) -> (r: bool)
    ensures
        r == is_connection_header(name@),
{
    let connection = String::from_str("connection");
    let transfer_encoding = String::from_str("transfer-encoding");
    *name == connection || *name == transfer_encoding
}

/// Whether a header set holds a header of the given name.
pub fn contains_header(hs: &Vec<(String, String)>, name: &String) -> (r: bool)
    ensures
        r == has_header(headers_view(hs@), name@),
{
    let mut i: usize = 0;
    while i < hs.len()
        invariant
            0 <= i <= hs@.len(),
            forall|j: int| 0 <= j < i ==> headers_view(hs@)[j].0 != name@,
        decreases hs@.len() - i,
    {
        if hs[i].0 == *name {
            assert(headers_view(hs@)[i as int].0 == name@);
            return true;
        }
        i = i + 1;
    }
    false
}

/// Copies the upstream headers that the caller may see: every header
/// except the connection-management ones, in upstream order, with an
/// event-stream content type injected in front when streaming was
/// requested and the upstream named no content type.
pub fn filter_headers(hs: &Vec<(String, String)>, is_streaming: bool) -> (r: Vec<
    (String, String),
>)
    ensures
        headers_view(r@) == outbound_headers(headers_view(hs@), is_streaming),
{
    let mut r: Vec<(String, String)> = Vec::new();
    let content_type = String::from_str("content-type");
    if is_streaming && !contains_header(hs, &content_type) {
        r.push((String::from_str("content-type"), String::from_str("text/event-stream")));
    }
    let ghost prefix = headers_view(r@);
    let mut i: usize = 0;
    while i < hs.len()
        invariant
            0 <= i <= hs@.len(),
            headers_view(r@) == prefix + forwarded_headers(headers_view(hs@).take(i as int)),
        decreases hs@.len() - i,
    {
        let (name, value) = (hs[i].0.clone(), hs[i].1.clone());
        let ghost rv = headers_view(r@);
        proof {
            assert(headers_view(hs@).take(i + 1 as int).drop_last() =~= headers_view(hs@).take(
                i as int,
            ));
            assert(headers_view(hs@).take(i + 1 as int).last() == (hs@[i as int].0@,
            hs@[i as int].1@));
            assert(name@ == hs@[i as int].0@ && value@ == hs@[i as int].1@);
        }
        if !is_connection_header_name(&name) {
            r.push((name, value));
            proof {
                assert(headers_view(r@) =~= rv.push((name@, value@)));
                assert(headers_view(r@) =~= prefix + forwarded_headers(
                    headers_view(hs@).take(i + 1 as int),
                ));
            }
        } else {
            proof {
                assert(headers_view(r@) =~= prefix + forwarded_headers(
                    headers_view(hs@).take(i + 1 as int),
                ));
            }
        }
        i = i + 1;
    }
    proof {
        assert(headers_view(hs@).take(hs@.len() as int) =~= headers_view(hs@));
        assert(headers_view(r@) =~= outbound_headers(headers_view(hs@), is_streaming));
    }
    r
}

/// No connection-management header survives the filter, and every other
/// upstream header is carried through verbatim.
pub proof fn lemma_filter_is_exact(hs: HeadersView, is_streaming: bool)
    ensures
        forall|i: int|
            0 <= i < outbound_headers(hs, is_streaming).len() ==> !is_connection_header(
                #[trigger] outbound_headers(hs, is_streaming)[i].0,
            ),
        forall|i: int|
            0 <= i < hs.len() && !is_connection_header(#[trigger] hs[i].0) ==> outbound_headers(
                hs,
                is_streaming,
            ).contains(hs[i]),
{
    reveal_strlit("content-type");
    reveal_strlit("connection");
    reveal_strlit("transfer-encoding");
    lemma_forwarded_is_exact(hs);
    if is_streaming && !has_header(hs, "content-type"@) {
        assert(outbound_headers(hs, is_streaming)[0].0 == "content-type"@);
        assert(!is_connection_header("content-type"@));
        assert forall|i: int|
            0 < i < outbound_headers(hs, is_streaming).len() implies !is_connection_header(
            outbound_headers(hs, is_streaming)[i].0,
        ) by {
            assert(outbound_headers(hs, is_streaming)[i] == forwarded_headers(hs)[i - 1]);
        }
    }
    assert forall|i: int|
        0 <= i < hs.len() && !is_connection_header(#[trigger] hs[i].0) implies outbound_headers(
        hs,
        is_streaming,
    ).contains(hs[i]) by {
        let j = choose|j: int|
            0 <= j < forwarded_headers(hs).len() && forwarded_headers(hs)[j] == hs[i];
        if is_streaming && !has_header(hs, "content-type"@) {
            assert(outbound_headers(hs, is_streaming)[j + 1] == hs[i]);
        } else {
            assert(outbound_headers(hs, is_streaming)[j] == hs[i]);
        }
    }
}

proof fn lemma_forwarded_is_exact(hs: HeadersView)
    ensures
        forall|i: int|
            0 <= i < forwarded_headers(hs).len() ==> !is_connection_header(
                #[trigger] forwarded_headers(hs)[i].0,
            ),
        forall|i: int|
            0 <= i < hs.len() && !is_connection_header(#[trigger] hs[i].0)
                ==> forwarded_headers(hs).contains(hs[i]),
    decreases hs.len(),
{
    if hs.len() > 0 {
        lemma_forwarded_is_exact(hs.drop_last());
        assert forall|i: int|
            0 <= i < hs.len() && !is_connection_header(#[trigger] hs[i].0) implies forwarded_headers(
            hs,
        ).contains(hs[i]) by {
            if i < hs.len() - 1 {
                assert(hs.drop_last()[i] == hs[i]);
                let j = choose|j: int|
                    0 <= j < forwarded_headers(hs.drop_last()).len() && forwarded_headers(
                        hs.drop_last(),
                    )[j] == hs[i];
                assert(forwarded_headers(hs)[j] == hs[i]);
            } else {
                assert(hs.last() == hs[i]);
                assert(forwarded_headers(hs).last() == hs[i]);
            }
        }
    }
}

/// The refund amount that an upstream header set announces: the value of
/// the first refund header, if one stands there.
pub open spec fn refund_of(hs: HeadersView) -> Option<Seq<char>>
    decreases hs.len(),
{
    if hs.len() == 0 {
        None
    } else if hs[0].0 == "x-change-sats"@ {
        Some(hs[0].1)
    } else {
        refund_of(hs.skip(1))
    }
}

/// Reads the refund amount from an upstream header set, if the upstream
/// announced one.
pub fn refund_amount(hs: &Vec<(String, String)>) -> (r: Option<String>)
    ensures
        match r {
            Some(v) => refund_of(headers_view(hs@)) == Some(v@),
            None => refund_of(headers_view(hs@)) is None,
        },
{
    let refund_name = String::from_str("x-change-sats");
    proof {
        assert(headers_view(hs@).skip(0) =~= headers_view(hs@));
    }
    let mut i: usize = 0;
    while i < hs.len()
        invariant
            0 <= i <= hs@.len(),
            refund_name@ == "x-change-sats"@,
            refund_of(headers_view(hs@)) == refund_of(headers_view(hs@).skip(i as int)),
            forall|j: int| 0 <= j < i ==> headers_view(hs@)[j].0 != "x-change-sats"@,
        decreases hs@.len() - i,
    {
        proof {
            assert(headers_view(hs@).skip(i as int)[0] == (hs@[i as int].0@, hs@[i as int].1@));
            assert(headers_view(hs@).skip(i as int).skip(1) =~= headers_view(hs@).skip(i + 1 as int));
        }
        if hs[i].0 == refund_name {
            return Some(hs[i].1.clone());
        }
        i = i + 1;
    }
    proof {
        assert(headers_view(hs@).skip(hs@.len() as int) =~= Seq::<(Seq<char>, Seq<char>)>::empty());
    }
    None
}

} // verus!
