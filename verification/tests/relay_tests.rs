use gateway::relay::{producer_step, relay_events, ChunkEvent, RelayItem, RELAY_QUEUE_CAPACITY};

#[test]
fn relay_preserves_chunk_order() {
    let events = vec![
        ChunkEvent::Data(b"first ".to_vec()),
        ChunkEvent::Data(b"second ".to_vec()),
        ChunkEvent::Data(b"third".to_vec()),
    ];
    let items = relay_events(&events);
    assert_eq!(
        items,
        vec![
            RelayItem::Bytes(b"first ".to_vec()),
            RelayItem::Bytes(b"second ".to_vec()),
            RelayItem::Bytes(b"third".to_vec()),
        ]
    );
    let mut body = Vec::new();
    for item in &items {
        match item {
            RelayItem::Bytes(b) => body.extend_from_slice(b),
            RelayItem::Failed(_) => panic!("no failure was relayed"),
        }
    }
    assert_eq!(body, b"first second third".to_vec());
}

#[test]
fn relay_of_no_chunks_is_empty() {
    let items = relay_events(&Vec::new());
    assert!(items.is_empty());
}

#[test]
fn relay_truncates_after_a_read_error() {
    let events = vec![
        ChunkEvent::Data(b"one".to_vec()),
        ChunkEvent::Data(b"two".to_vec()),
        ChunkEvent::ReadError("reset by peer".to_string()),
        ChunkEvent::Data(b"never seen".to_vec()),
    ];
    let items = relay_events(&events);
    assert_eq!(
        items,
        vec![
            RelayItem::Bytes(b"one".to_vec()),
            RelayItem::Bytes(b"two".to_vec()),
            RelayItem::Failed("Error reading from upstream: reset by peer".to_string()),
        ]
    );
}

#[test]
fn relay_with_error_first_emits_only_the_marker() {
    let events = vec![ChunkEvent::ReadError("gone".to_string())];
    let items = relay_events(&events);
    assert_eq!(
        items,
        vec![RelayItem::Failed("Error reading from upstream: gone".to_string())]
    );
}

#[test]
fn producer_forwards_data_and_goes_on() {
    let (item, go_on) = producer_step(&ChunkEvent::Data(b"abc".to_vec()));
    assert_eq!(item, RelayItem::Bytes(b"abc".to_vec()));
    assert!(go_on);
}

#[test]
fn producer_stops_on_a_read_error() {
    let (item, go_on) = producer_step(&ChunkEvent::ReadError("boom".to_string()));
    assert_eq!(
        item,
        RelayItem::Failed("Error reading from upstream: boom".to_string())
    );
    assert!(!go_on);
}

#[test]
fn queue_capacity_is_bounded() {
    assert_eq!(RELAY_QUEUE_CAPACITY, 100);
}
