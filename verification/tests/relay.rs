use ai_gateway::relay::{ChunkEvent, Relay, RelayAction};

#[test]
fn three_chunks_are_relayed_in_order_and_unmerged() {
    let mut relay = Relay::new();
    let chunks: Vec<Vec<u8>> = vec![b"data: 1\n\n".to_vec(), b"data: 2\n\n".to_vec(), b"data: 3\n\n".to_vec()];
    let mut seen: Vec<Vec<u8>> = Vec::new();
    for chunk in &chunks {
        match relay.step(ChunkEvent::Data(chunk.clone())) {
            RelayAction::Forward(bytes) => seen.push(bytes),
            other => panic!("unexpected action {:?}", other),
        }
        assert!(relay.open());
    }
    assert_eq!(seen, chunks);
    assert_eq!(relay.step(ChunkEvent::Finished), RelayAction::Complete);
    assert!(!relay.open());
}

#[test]
fn empty_chunk_is_relayed_as_it_is() {
    let mut relay = Relay::new();
    assert_eq!(relay.step(ChunkEvent::Data(Vec::new())), RelayAction::Forward(Vec::new()));
    assert!(relay.open());
}

#[test]
fn failed_read_ends_the_stream_at_once() {
    let mut relay = Relay::new();
    assert_eq!(relay.step(ChunkEvent::Data(vec![1, 2])), RelayAction::Forward(vec![1, 2]));
    assert_eq!(relay.step(ChunkEvent::Failed), RelayAction::Abort);
    assert!(!relay.open());
    assert_eq!(relay.step(ChunkEvent::Data(vec![3])), RelayAction::Ignore);
    assert_eq!(relay.step(ChunkEvent::Finished), RelayAction::Ignore);
    assert_eq!(relay.step(ChunkEvent::Failed), RelayAction::Ignore);
}

#[test]
fn nothing_is_relayed_after_the_end() {
    let mut relay = Relay::new();
    assert!(relay.open());
    assert_eq!(relay.step(ChunkEvent::Finished), RelayAction::Complete);
    assert_eq!(relay.step(ChunkEvent::Data(vec![9])), RelayAction::Ignore);
    assert!(!relay.open());
}
