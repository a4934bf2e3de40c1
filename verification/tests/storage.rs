use krewetka::messages::{
    AckMessage, FlowMessage, FlowMessageMetadata, FlowMessageWithMetadata,
    PersistFlowMessageWithMetadata,
};
use krewetka::storage::{
    finish_flush, format_clickhouse_dsn, stash_can_be_acknowledged, stash_result, timestamp_parts, ClickhouseSettings,
    StashOutcome, StorageBuffer, StorageError,
};

fn message(offset: i64) -> FlowMessageWithMetadata {
    FlowMessageWithMetadata {
        flow_message: FlowMessage {
            out_bytes: 1,
            out_pkts: 1,
            in_bytes: 1,
            in_pkts: 1,
            ipv4_src_addr: "1.1.1.1".into(),
            ipv4_dst_addr: "2.2.2.2".into(),
            l7_proto_bits: 0,
            l4_dst_port: 1,
            l4_src_port: 2,
            flow_duration_milliseconds: 3,
            protocol: 4,
            tcp_flags: 5,
        },
        malicious: Some(false),
        metadata: FlowMessageMetadata {
            timestamp: 1,
            host: "h".into(),
            id: format!("id-{offset}"),
            retry: 0,
            offset: Some(offset),
            partition: Some(3),
        },
    }
}

fn describe(acks: &[AckMessage]) -> Vec<String> {
    acks.iter()
        .map(|a| match a {
            AckMessage::Ack(o, p) => format!("ack {o}/{p}"),
            AckMessage::NackRetry(m) => format!("nack {}", m.metadata.id),
        })
        .collect()
}

#[test]
fn storage_dsn() {
    let s = ClickhouseSettings::new("db".into(), 9000, "user".into(), "pw".into());
    assert_eq!(
        s.to_dsn(),
        "tcp://user:pw@db:9000/default?compression=lz4&send_retries=0"
    );
    assert_eq!(
        format_clickhouse_dsn("a", "b", "c", 0),
        "tcp://a:b@c:0/default?compression=lz4&send_retries=0"
    );
}

#[test]
fn storage_timestamp_parts() {
    assert_eq!(timestamp_parts(1_650_000_123_456), (1_650_000_123, 456_000_000));
    assert_eq!(timestamp_parts(999), (0, 999_000_000));
    assert_eq!(timestamp_parts(0), (0, 0));
}

#[test]
fn storage_inserted_batch_acks_pushed_records() {
    let batch = vec![message(1), message(2), message(3)];
    let r = stash_result(batch, StashOutcome::Pushed { pushed: vec![true, false, true], insert_error: None });
    match r {
        Ok(acks) => assert_eq!(describe(&acks), vec!["ack 1/3", "nack id-2", "ack 3/3"]),
        Err(e) => panic!("unexpected {e:?}"),
    }
}

#[test]
fn storage_failed_insert_retries_everything() {
    let batch = vec![message(1), message(2)];
    let r = stash_result(batch, StashOutcome::Pushed { pushed: vec![true, true], insert_error: Some("down".into()) });
    match r {
        Err(StorageError::DatabaseSave(e, acks)) => {
            assert_eq!(e, "down");
            assert_eq!(describe(&acks), vec!["nack id-1", "nack id-2"]);
        }
        other => panic!("unexpected {other:?}"),
    }
    let r = stash_result(vec![message(7)], StashOutcome::HandleFailed("timeout".into()));
    match r {
        Err(StorageError::DatabaseSave(e, acks)) => {
            assert_eq!(e, "timeout");
            assert_eq!(describe(&acks), vec!["nack id-7"]);
        }
        other => panic!("unexpected {other:?}"),
    }
}

#[test]
fn storage_flush_returns_room_for_what_it_took() {
    let mut buffer = StorageBuffer::new();
    buffer.persist(PersistFlowMessageWithMetadata(message(1)));
    buffer.persist(PersistFlowMessageWithMetadata(message(2)));
    let batch = buffer.take_batch();
    assert_eq!(batch.len(), 2);
    assert_eq!(buffer.take_batch().len(), 0);
    let r = stash_result(batch, StashOutcome::Pushed { pushed: vec![true, true], insert_error: None });
    let (acks, room) = finish_flush(r);
    assert_eq!(acks.len(), 2);
    assert_eq!(room.0, 2);
    let (acks, room) = finish_flush(Err(StorageError::DatabaseSave("x".into(), vec![])));
    assert_eq!(acks.len(), 0);
    assert_eq!(room.0, 0);
}

#[test]
fn storage_batch_acknowledgeable_only_with_offsets() {
    let batch = vec![message(1), message(2)];
    assert!(stash_can_be_acknowledged(&batch, &StashOutcome::HandleFailed("x".into())));
    assert!(stash_can_be_acknowledged(&batch, &StashOutcome::Pushed { pushed: vec![true, false], insert_error: None }));
    assert!(!stash_can_be_acknowledged(&batch, &StashOutcome::Pushed { pushed: vec![true], insert_error: None }));
    let mut lost = message(3);
    lost.metadata.partition = None;
    let batch = vec![lost];
    assert!(!stash_can_be_acknowledged(&batch, &StashOutcome::Pushed { pushed: vec![true], insert_error: None }));
    assert!(stash_can_be_acknowledged(&batch, &StashOutcome::Pushed { pushed: vec![false], insert_error: None }));
}
