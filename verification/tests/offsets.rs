use krewetka::event_stream::kafka::offset::{
    current_offset_from_lookup, offset_to_commit, starting_offset, KafkaOffset,
    OffsetLookupError,
};
use krewetka::event_stream::kafka::offset_guard::{
    first_committed_for_topic, CommittedPartition, ConsumerOffsetGuard,
};

fn committed(topic: &str, partition: i32, offset: KafkaOffset) -> CommittedPartition {
    CommittedPartition { topic: topic.to_owned(), partition, offset }
}

#[test]
fn offset_guard_waits_for_the_committed_offset_of_its_topic() {
    let mut g = ConsumerOffsetGuard::new("flows");
    g.push_processed_offset(7);
    assert!(!g.take_committed(None));
    assert_eq!(g.last_stored_offset(), 0);
    let others = vec![committed("other", 0, KafkaOffset::Offset(3))];
    assert!(!g.take_committed(Some(&others)));
    assert_eq!(g.last_stored_offset(), 0);
    let list = vec![
        committed("other", 0, KafkaOffset::Offset(3)),
        committed("flows", 1, KafkaOffset::Offset(5)),
        committed("flows", 0, KafkaOffset::Offset(9)),
    ];
    assert!(g.take_committed(Some(&list)));
    assert_eq!(g.last_stored_offset(), 5);
    g.push_processed_offset(6);
    assert_eq!(g.advance_stored_offset(), 7);
    let invalid = vec![committed("flows", 0, KafkaOffset::Invalid)];
    assert!(g.take_committed(Some(&invalid)));
    assert_eq!(g.last_stored_offset(), 0);
}

#[test]
fn offset_guard_hands_each_processed_offset_to_the_store() {
    let g = ConsumerOffsetGuard::new("flows");
    let s = g.stash_processed_offset(17, 2);
    assert_eq!(s.topic, "flows");
    assert_eq!(s.partition, 2);
    assert_eq!(s.offset, 17);
    let later = g.stash_processed_offset(3, 0);
    assert_eq!((later.topic.as_str(), later.partition, later.offset), ("flows", 0, 3));
    assert_eq!(g.last_stored_offset(), 0);
}

#[test]
fn first_committed_offset_of_a_topic() {
    let list = vec![
        committed("a", 0, KafkaOffset::Offset(1)),
        committed("b", 2, KafkaOffset::Offset(2)),
        committed("b", 0, KafkaOffset::Offset(3)),
    ];
    assert_eq!(first_committed_for_topic(&list, &"b".to_owned()), Some(KafkaOffset::Offset(2)));
    assert_eq!(first_committed_for_topic(&list, &"c".to_owned()), None);
    assert_eq!(first_committed_for_topic(&vec![], &"a".to_owned()), None);
}

#[test]
fn offsets_decode_librdkafka_integers() {
    assert_eq!(offset_to_commit(-2), KafkaOffset::Beginning);
    assert_eq!(offset_to_commit(-1), KafkaOffset::End);
    assert_eq!(offset_to_commit(-1000), KafkaOffset::Stored);
    assert_eq!(offset_to_commit(-1001), KafkaOffset::Invalid);
    assert_eq!(offset_to_commit(-2005), KafkaOffset::OffsetTail(5));
    assert_eq!(offset_to_commit(-2000), KafkaOffset::OffsetTail(0));
    assert_eq!(offset_to_commit(0), KafkaOffset::Offset(0));
    assert_eq!(offset_to_commit(42), KafkaOffset::Offset(42));
    assert_eq!(offset_to_commit(-7), KafkaOffset::Offset(-7));
}

#[test]
fn offsets_where_consumption_starts() {
    assert_eq!(starting_offset(KafkaOffset::Invalid), KafkaOffset::Offset(0));
    assert_eq!(starting_offset(KafkaOffset::Offset(12)), KafkaOffset::Offset(12));
    assert_eq!(starting_offset(KafkaOffset::Beginning), KafkaOffset::Beginning);
    assert_eq!(current_offset_from_lookup(Ok(KafkaOffset::Offset(3))), KafkaOffset::Offset(3));
    assert_eq!(
        current_offset_from_lookup(Err(OffsetLookupError::UnknownTopicOrPartition)),
        KafkaOffset::Beginning
    );
    assert_eq!(current_offset_from_lookup(Err(OffsetLookupError::Other)), KafkaOffset::Invalid);
}

#[test]
fn offset_guard_stores_contiguous_offsets_only() {
    let mut g = ConsumerOffsetGuard::new("flows");
    assert_eq!(g.last_stored_offset(), 0);
    assert_eq!(g.topic, "flows");
    g.push_processed_offset(3);
    g.push_processed_offset(1);
    assert_eq!(g.advance_stored_offset(), 1);
    g.push_processed_offset(2);
    assert_eq!(g.advance_stored_offset(), 3);
    g.push_processed_offset(5);
    assert_eq!(g.advance_stored_offset(), 3);
    g.push_processed_offset(4);
    assert_eq!(g.advance_stored_offset(), 5);
    assert_eq!(g.advance_stored_offset(), 5);
}

#[test]
fn offset_guard_takes_committed_offset() {
    let mut g = ConsumerOffsetGuard::new("t");
    g.set_last_stored_from_committed(KafkaOffset::Offset(41));
    assert_eq!(g.last_stored_offset(), 41);
    g.push_processed_offset(42);
    assert_eq!(g.advance_stored_offset(), 42);
    g.set_last_stored_from_committed(KafkaOffset::Invalid);
    assert_eq!(g.last_stored_offset(), 0);
}

#[test]
fn offset_guard_stale_offset_is_taken_back() {
    let mut g = ConsumerOffsetGuard::new("t");
    g.set_last_stored_from_committed(KafkaOffset::Offset(10));
    g.push_processed_offset(3);
    assert_eq!(g.advance_stored_offset(), 3);
}
