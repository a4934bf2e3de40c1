use krewetka::event_stream::actor::{ack_can_be_handled, handle_ack, AckAction, ConsumeCredit, ConsumeStep};
use krewetka::event_stream::kafka::retrier::Retrier;
use krewetka::messages::{AckMessage, FlowMessage, FlowMessageMetadata, FlowMessageWithMetadata};

fn message(retry: usize) -> FlowMessageWithMetadata {
    FlowMessageWithMetadata {
        flow_message: FlowMessage {
            out_bytes: 1,
            out_pkts: 2,
            in_bytes: 3,
            in_pkts: 4,
            ipv4_src_addr: "10.0.0.1".into(),
            ipv4_dst_addr: "10.0.0.2".into(),
            l7_proto_bits: 0,
            l4_dst_port: 80,
            l4_src_port: 4000,
            flow_duration_milliseconds: 5,
            protocol: 6,
            tcp_flags: 0,
        },
        malicious: Some(true),
        metadata: FlowMessageMetadata {
            timestamp: 1,
            host: "h".into(),
            id: "m-1".into(),
            retry,
            offset: Some(10),
            partition: Some(0),
        },
    }
}

#[test]
fn ack_is_stored() {
    match handle_ack(&Retrier::default(), AckMessage::Ack(5, 1)) {
        AckAction::Ack { offset, partition } => assert_eq!((offset, partition), (5, 1)),
        other => panic!("unexpected {other:?}"),
    }
}

#[test]
fn nack_goes_to_next_retry_topic_then_is_acked() {
    match handle_ack(&Retrier::default(), AckMessage::NackRetry(message(0))) {
        AckAction::ProduceThenAck { topic, msg, offset, partition } => {
            assert_eq!(topic, "flows_retry_1");
            assert_eq!(msg.metadata.retry, 1);
            assert_eq!(msg.metadata.id, "m-1");
            assert_eq!((offset, partition), (10, 0));
        }
        other => panic!("unexpected {other:?}"),
    }
    match handle_ack(&Retrier::default(), AckMessage::NackRetry(message(2))) {
        AckAction::ProduceThenAck { topic, msg, .. } => {
            assert_eq!(topic, "flows_dead_letter_queue");
            assert_eq!(msg.metadata.retry, 3);
        }
        other => panic!("unexpected {other:?}"),
    }
}

#[test]
fn nack_after_dead_letter_queue_is_dropped() {
    assert!(matches!(
        handle_ack(&Retrier::default(), AckMessage::NackRetry(message(3))),
        AckAction::Drop
    ));
}

#[test]
fn consumer_forwards_exactly_the_granted_number() {
    let mut c = ConsumeCredit::new();
    assert_eq!(c.next_step(), ConsumeStep::WaitForCapacity);
    c.on_capacity(3);
    for _ in 0..2 {
        assert_eq!(c.next_step(), ConsumeStep::ReceiveMessage);
        c.on_message_forwarded();
    }
    assert_eq!(c.next_step(), ConsumeStep::ReceiveMessage);
    c.on_message_forwarded();
    assert_eq!(c.next_step(), ConsumeStep::WaitForCapacity);
    c.on_capacity(0);
    assert_eq!(c.next_step(), ConsumeStep::WaitForCapacity);
}

#[test]
fn ack_handling_needs_offset_for_retried_messages() {
    let r = Retrier::default();
    assert!(ack_can_be_handled(&r, &AckMessage::Ack(1, 1)));
    assert!(ack_can_be_handled(&r, &AckMessage::NackRetry(message(0))));
    let mut no_offset = message(0);
    no_offset.metadata.offset = None;
    assert!(!ack_can_be_handled(&r, &AckMessage::NackRetry(no_offset)));
    let mut dropped = message(3);
    dropped.metadata.offset = None;
    assert!(ack_can_be_handled(&r, &AckMessage::NackRetry(dropped)));
    assert!(!ack_can_be_handled(&r, &AckMessage::NackRetry(message(usize::MAX))));
}
