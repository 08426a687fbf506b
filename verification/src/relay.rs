//! The streaming relay: how upstream read results become the chunks the
//! caller receives.
//!
//! At run time a producer task reads upstream chunks and pushes each into a
//! bounded queue whose other end feeds the outbound body; the bounded
//! capacity gives backpressure.  The decision made per read result — what
//! is pushed, and whether reading goes on — is [`producer_step`]; what a
//! caller that consumes the whole queue receives is [`relay_events`].
//! Order is the only cross-stream invariant: chunks are neither reordered
//! nor deduplicated, and a read error ends the stream with one terminal
//! error marker.

use vstd::prelude::*;
use vstd::string::StringExecFns;

verus! {

/// How many chunks may sit between the upstream reader and the outbound
/// writer before the reader blocks.
pub const RELAY_QUEUE_CAPACITY: usize = 100;

/// One result of reading the upstream stream: a chunk of bytes, or the
/// read failing with a transport error message.
#[derive(Clone, Debug, PartialEq, Eq)]
pub enum ChunkEvent {
    Data(Vec<u8>),
    ReadError(String),
}

/// The mathematical value of a [`ChunkEvent`].
pub enum ChunkEventView {
    Data(Seq<u8>),
    ReadError(Seq<char>),
}

impl View for ChunkEvent {
    type V = ChunkEventView;

    open spec fn view(&self) -> ChunkEventView {
        match self {
            ChunkEvent::Data(b) => ChunkEventView::Data(b@),
            ChunkEvent::ReadError(e) => ChunkEventView::ReadError(e@),
        }
    }
}

/// One item the caller-facing body receives: a chunk of bytes, or the
/// terminal marker that the upstream connection broke.
#[derive(Clone, Debug, PartialEq, Eq)]
pub enum RelayItem {
    Bytes(Vec<u8>),
    Failed(String),
}

/// The mathematical value of a [`RelayItem`].
pub enum RelayItemView {
    Bytes(Seq<u8>),
    Failed(Seq<char>),
}

impl View for RelayItem {
    type V = RelayItemView;

    open spec fn view(&self) -> RelayItemView {
        match self {
            RelayItem::Bytes(b) => RelayItemView::Bytes(b@),
            RelayItem::Failed(e) => RelayItemView::Failed(e@),
        }
    }
}

/// The value of a sequence of read results.
pub open spec fn events_view(evs: Seq<ChunkEvent>) -> Seq<ChunkEventView> {
    evs.map_values(|e: ChunkEvent| e@)
}

/// The value of a sequence of relayed items.
pub open spec fn items_view(items: Seq<RelayItem>) -> Seq<RelayItemView> {
    items.map_values(|it: RelayItem| it@)
}

/// The message that wraps an upstream read error before it is surfaced.
pub open spec fn read_error_message(cause: Seq<char>) -> Seq<char> {
    "Error reading from upstream: "@ + cause
}

/// What the caller receives when the whole queue is consumed: each chunk
/// in upstream order, until the first read error, which becomes one
/// terminal marker; nothing follows it.
pub open spec fn relayed(evs: Seq<ChunkEventView>) -> Seq<RelayItemView>
    decreases evs.len(),
{
    if evs.len() == 0 {
        Seq::empty()
    } else {
        match evs[0] {
            ChunkEventView::Data(b) => seq![RelayItemView::Bytes(b)] + relayed(evs.skip(1)),
            ChunkEventView::ReadError(e) => seq![RelayItemView::Failed(read_error_message(e))],
        }
    }
}

/// The bytes of the outbound body: the relayed chunks concatenated in
/// order; a terminal marker ends the body.
pub open spec fn delivered_bytes(items: Seq<RelayItemView>) -> Seq<u8>
    decreases items.len(),
{
    if items.len() == 0 {
        Seq::empty()
    } else {
        match items[0] {
            RelayItemView::Bytes(b) => b + delivered_bytes(items.skip(1)),
            RelayItemView::Failed(_) => Seq::empty(),
        }
    }
}

/// The upstream bytes up to the first read error, concatenated in order.
pub open spec fn upstream_bytes(evs: Seq<ChunkEventView>) -> Seq<u8>
    decreases evs.len(),
{
    if evs.len() == 0 {
        Seq::empty()
    } else {
        match evs[0] {
            ChunkEventView::Data(b) => b + upstream_bytes(evs.skip(1)),
            ChunkEventView::ReadError(_) => Seq::empty(),
        }
    }
}

/// The producer's decision for one read result: the item to push into
/// the queue, and whether reading goes on.  A chunk is forwarded as it
/// is; a read error is wrapped into the terminal marker and ends the
/// producer.
pub fn producer_step(ev: &ChunkEvent) -> (r: (RelayItem, bool))
    ensures
        match ev@ {
            ChunkEventView::Data(b) => r.0@ == RelayItemView::Bytes(b) && r.1,
            ChunkEventView::ReadError(e) => r.0@ == RelayItemView::Failed(read_error_message(e))
                && !r.1,
        },
{
    match ev {
        ChunkEvent::Data(b) => {
            let copy = clone_bytes(b);
            (RelayItem::Bytes(copy), true)
        },
        ChunkEvent::ReadError(e) => {
            let mut message = String::from_str("Error reading from upstream: ");
            message.append(e.as_str());
            (RelayItem::Failed(message), false)
        },
    }
}

/// Copies a chunk of bytes.
fn clone_bytes(b: &Vec<u8>) -> (r: Vec<u8>)
    ensures
        r@ == b@,
{
    let mut r: Vec<u8> = Vec::new();
    let mut i: usize = 0;
    while i < b.len()
        invariant
            0 <= i <= b@.len(),
            r@ == b@.take(i as int),
        decreases b@.len() - i,
    {
        r.push(b[i]);
        proof {
            assert(b@.take(i + 1 as int) =~= b@.take(i as int).push(b@[i as int]));
        }
        i = i + 1;
    }
    proof {
        assert(b@.take(b@.len() as int) =~= b@);
    }
    r
}

/// Relays a complete sequence of upstream read results into the items
/// the caller receives, in order.
pub fn relay_events(events: &Vec<ChunkEvent>) -> (r: Vec<RelayItem>)
    ensures
        items_view(r@) == relayed(events_view(events@)),
{
    let ghost evs = events_view(events@);
    let mut r: Vec<RelayItem> = Vec::new();
    let mut i: usize = 0;
    proof {
        assert(evs.take(0) =~= Seq::<ChunkEventView>::empty());
    }
    while i < events.len()
        invariant
            0 <= i <= events@.len(),
            evs == events_view(events@),
            items_view(r@) == relayed(evs.take(i as int)),
            forall|j: int| 0 <= j < i ==> evs[j] is Data,
        decreases events@.len() - i,
    {
        let ev = &events[i];
        let ghost evv = ev@;
        proof {
            assert(evv == evs[i as int]);
            assert(forall|j: int| 0 <= j < i ==> evs.take(i as int)[j] is Data);
            lemma_relayed_extends(evs.take(i as int), evv);
            assert(evs.take(i + 1 as int) =~= evs.take(i as int).push(evv));
        }
        let (out, go_on) = producer_step(ev);
        r.push(out);
        proof {
            assert(items_view(r@) =~= relayed(evs.take(i as int)) + (match evv {
                ChunkEventView::Data(b) => seq![RelayItemView::Bytes(b)],
                ChunkEventView::ReadError(e) => seq![
                    RelayItemView::Failed(read_error_message(e)),
                ],
            }));
        }
        if !go_on {
            proof {
                assert(evv is ReadError);
                lemma_relayed_stops(evs, i as int);
                assert(items_view(r@) == relayed(evs.take(i + 1 as int)));
                assert(items_view(r@) == relayed(evs));
            }
            return r;
        }
        i = i + 1;
    }
    proof {
        assert(evs.take(events@.len() as int) =~= evs);
    }
    r
}

/// Relaying one more read result appends one item, as long as no read
/// error came before it.
proof fn lemma_relayed_extends(evs: Seq<ChunkEventView>, ev: ChunkEventView)
    requires
        forall|j: int| 0 <= j < evs.len() ==> evs[j] is Data,
    ensures
        relayed(evs.push(ev)) == relayed(evs) + (match ev {
            ChunkEventView::Data(b) => seq![RelayItemView::Bytes(b)],
            ChunkEventView::ReadError(e) => seq![RelayItemView::Failed(read_error_message(e))],
        }),
    decreases evs.len(),
{
    if evs.len() == 0 {
        assert(relayed(evs) =~= Seq::<RelayItemView>::empty());
        assert(evs.push(ev)[0] == ev);
        assert(evs.push(ev).skip(1) =~= Seq::<ChunkEventView>::empty());
        match ev {
            ChunkEventView::Data(b) => {
                assert(relayed(evs.push(ev)) == seq![RelayItemView::Bytes(b)] + relayed(
                    evs.push(ev).skip(1),
                ));
                assert(relayed(evs.push(ev).skip(1)) =~= Seq::<RelayItemView>::empty());
                assert(relayed(evs.push(ev)) =~= relayed(evs) + seq![RelayItemView::Bytes(b)]);
            },
            ChunkEventView::ReadError(e) => {
                assert(relayed(evs.push(ev)) == seq![
                    RelayItemView::Failed(read_error_message(e)),
                ]);
                assert(relayed(evs.push(ev)) =~= relayed(evs) + seq![
                    RelayItemView::Failed(read_error_message(e)),
                ]);
            },
        }
    } else {
        assert(evs.push(ev)[0] == evs[0]);
        assert(evs[0] is Data);
        assert(evs.push(ev).skip(1) =~= evs.skip(1).push(ev));
        lemma_relayed_extends(evs.skip(1), ev);
        assert(relayed(evs.skip(1).push(ev)) == relayed(evs.skip(1)) + (match ev {
            ChunkEventView::Data(b) => seq![RelayItemView::Bytes(b)],
            ChunkEventView::ReadError(e) => seq![RelayItemView::Failed(read_error_message(e))],
        }));
        assert(relayed(evs.push(ev)) == seq![RelayItemView::Bytes(evs[0]->Data_0)] + relayed(
            evs.skip(1).push(ev),
        ));
        assert(relayed(evs) == seq![RelayItemView::Bytes(evs[0]->Data_0)] + relayed(evs.skip(1)));
        assert(relayed(evs.push(ev)) =~= relayed(evs) + (match ev {
            ChunkEventView::Data(b) => seq![RelayItemView::Bytes(b)],
            ChunkEventView::ReadError(e) => seq![RelayItemView::Failed(read_error_message(e))],
        }));
    }
}

/// Nothing past the first read error reaches the caller: the relay of a
/// whole event sequence equals the relay of its prefix ending at the
/// first read error.
proof fn lemma_relayed_stops(evs: Seq<ChunkEventView>, k: int)
    requires
        0 <= k < evs.len(),
        evs[k] is ReadError,
        forall|j: int| 0 <= j < k ==> evs[j] is Data,
    ensures
        relayed(evs) == relayed(evs.take(k + 1)),
    decreases k,
{
    if k == 0 {
        assert(evs.take(1)[0] == evs[0]);
        assert(relayed(evs) =~= relayed(evs.take(1)));
    } else {
        assert(evs.skip(1)[k - 1] is ReadError);
        assert(forall|j: int| 0 <= j < k - 1 ==> evs.skip(1)[j] is Data);
        lemma_relayed_stops(evs.skip(1), k - 1);
        assert(evs.take(k + 1)[0] == evs[0]);
        assert(evs.take(k + 1).skip(1) =~= evs.skip(1).take(k));
        assert(relayed(evs) =~= relayed(evs.take(k + 1)));
    }
}

/// The relay preserves order and loses nothing: when the upstream emits
/// its chunks without error, the caller receives exactly those chunks,
/// one item per chunk in the same order, and the outbound body is their
/// concatenation.
pub proof fn lemma_relay_order_preserving(evs: Seq<ChunkEventView>)
    requires
        forall|j: int| 0 <= j < evs.len() ==> evs[j] is Data,
    ensures
        relayed(evs).len() == evs.len(),
        forall|j: int|
            0 <= j < evs.len() ==> relayed(evs)[j] == RelayItemView::Bytes(evs[j]->Data_0),
        delivered_bytes(relayed(evs)) == upstream_bytes(evs),
    decreases evs.len(),
{
    if evs.len() > 0 {
        assert(forall|j: int| 0 <= j < evs.skip(1).len() ==> evs.skip(1)[j] is Data);
        lemma_relay_order_preserving(evs.skip(1));
        assert(relayed(evs) == seq![RelayItemView::Bytes(evs[0]->Data_0)] + relayed(evs.skip(1)));
        assert(relayed(evs).skip(1) =~= relayed(evs.skip(1)));
        assert(delivered_bytes(relayed(evs)) == evs[0]->Data_0 + delivered_bytes(
            relayed(evs).skip(1),
        ));
        assert(forall|j: int|
            0 <= j < evs.len() ==> relayed(evs)[j] == RelayItemView::Bytes(evs[j]->Data_0));
    }
}

/// When the upstream errors after its first chunks, the caller receives
/// exactly those chunks in order, then one terminal marker, and nothing
/// further; the outbound body is the concatenation of exactly the chunks
/// read before the error.
pub proof fn lemma_relay_truncates_on_error(evs: Seq<ChunkEventView>, k: int)
    requires
        0 <= k < evs.len(),
        evs[k] is ReadError,
        forall|j: int| 0 <= j < k ==> evs[j] is Data,
    ensures
        relayed(evs).len() == k + 1,
        forall|j: int| 0 <= j < k ==> relayed(evs)[j] == RelayItemView::Bytes(evs[j]->Data_0),
        relayed(evs)[k] == RelayItemView::Failed(read_error_message(evs[k]->ReadError_0)),
        delivered_bytes(relayed(evs)) == upstream_bytes(evs.take(k)),
    decreases k,
{
    if k == 0 {
        assert(relayed(evs) =~= seq![
            RelayItemView::Failed(read_error_message(evs[0]->ReadError_0)),
        ]);
        assert(evs.take(0) =~= Seq::<ChunkEventView>::empty());
    } else {
        assert(evs.skip(1)[k - 1] is ReadError);
        assert(forall|j: int| 0 <= j < k - 1 ==> evs.skip(1)[j] is Data);
        lemma_relay_truncates_on_error(evs.skip(1), k - 1);
        assert(relayed(evs) == seq![RelayItemView::Bytes(evs[0]->Data_0)] + relayed(evs.skip(1)));
        assert(relayed(evs).skip(1) =~= relayed(evs.skip(1)));
        assert(forall|j: int|
            1 <= j < k ==> relayed(evs)[j] == relayed(evs.skip(1))[j - 1]
                && evs.skip(1)[j - 1] == evs[j]);
        assert(delivered_bytes(relayed(evs)) == evs[0]->Data_0 + delivered_bytes(
            relayed(evs).skip(1),
        ));
        assert(evs.take(k)[0] == evs[0]);
        assert(evs.take(k).skip(1) =~= evs.skip(1).take(k - 1));
        assert(upstream_bytes(evs.take(k)) == evs[0]->Data_0 + upstream_bytes(
            evs.skip(1).take(k - 1),
        ));
    }
}

} // verus!
