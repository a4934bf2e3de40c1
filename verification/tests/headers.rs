use krewetka::event_stream::errors::EventStreamError;
use krewetka::event_stream::kafka::headers::{headers_hold_numbers, KafkaHeaders};
use krewetka::event_stream::kafka::state::KafkaState;
use krewetka::messages::FlowMessageMetadata;

fn metadata(host: &str, id: &str, timestamp: u64, retry: usize) -> FlowMessageMetadata {
    FlowMessageMetadata {
        timestamp,
        host: host.to_owned(),
        id: id.to_owned(),
        retry,
        offset: Some(17),
        partition: Some(2),
    }
}

fn header_error(r: Result<FlowMessageMetadata, EventStreamError>) -> String {
    match r {
        Err(EventStreamError::UnableToParseKafkaHeader(m)) => m,
        Ok(_) => panic!("expected an error"),
    }
}

#[test]
fn headers_written_for_metadata() {
    let h = metadata("sensor-1", "abc", 1650000000123, 2).to_headers();
    assert_eq!(h.count(), 4);
    assert_eq!(h.get(0), Some(("host-identifier-x", "sensor-1".as_bytes())));
    assert_eq!(h.get(1), Some(("message-id-x", "abc".as_bytes())));
    assert_eq!(h.get(2), Some(("timestamp-x", "1650000000123".as_bytes())));
    assert_eq!(h.get(3), Some(("retry-x", "2".as_bytes())));
    assert_eq!(h.get(4), None);
}

#[test]
fn headers_round_trip_keeps_metadata() {
    let m = metadata("żółw-host", "id-ą", u64::MAX, 3);
    let back = FlowMessageMetadata::try_from_headers(&m.to_headers()).ok().unwrap();
    assert_eq!(back.host, m.host);
    assert_eq!(back.id, m.id);
    assert_eq!(back.timestamp, m.timestamp);
    assert_eq!(back.retry, m.retry);
    assert_eq!(back.offset, None);
    assert_eq!(back.partition, None);
}

#[test]
fn headers_missing_ones_are_named_in_order_of_reading() {
    let empty = KafkaHeaders::new();
    assert_eq!(header_error(FlowMessageMetadata::try_from_headers(&empty)), "host-identifier-x");
    let one = KafkaHeaders::new().add("host-identifier-x", b"h");
    assert_eq!(header_error(FlowMessageMetadata::try_from_headers(&one)), "message-id-x");
    let two = one.add("message-id-x", b"i");
    assert_eq!(header_error(FlowMessageMetadata::try_from_headers(&two)), "retry-x");
}

#[test]
fn headers_invalid_utf8_reports_the_decoding_error() {
    let h = KafkaHeaders::new().add("host-identifier-x", &[0x66, 0xff]);
    let expected = std::str::from_utf8(&[0x66, 0xff]).unwrap_err().to_string();
    assert_eq!(header_error(FlowMessageMetadata::try_from_headers(&h)), expected);
}

#[test]
fn headers_received_message_gets_its_offset() {
    let h = metadata("h", "i", 5, 0).to_headers();
    let m = FlowMessageMetadata::from_received_message(&h, 99);
    assert_eq!(m.offset, Some(99));
    assert_eq!(m.partition, None);
    assert_eq!(m.timestamp, 5);
}

#[test]
fn headers_retry_count_in_binary() {
    let h = KafkaHeaders::new().add("retry", &[0, 0, 1, 2]);
    assert_eq!(KafkaState::extract_retry_from_headers(&Some(&h)), 258);
    let neg = KafkaHeaders::new().add("retry", &[0xff, 0xff, 0xff, 0xfe]);
    assert_eq!(KafkaState::extract_retry_from_headers(&Some(&neg)), -2);
    let min = KafkaHeaders::new().add("retry", &[0x80, 0, 0, 0]);
    assert_eq!(KafkaState::extract_retry_from_headers(&Some(&min)), i32::MIN);
    assert_eq!(KafkaState::extract_retry_from_headers(&Some(&KafkaHeaders::new())), 0);
    assert_eq!(KafkaState::extract_retry_from_headers(&None), 0);
}

#[test]
fn headers_map_hdr() {
    assert_eq!(FlowMessageMetadata::map_hdr(Some(("k", 5)), "k").ok(), Some(5));
    match FlowMessageMetadata::map_hdr::<u8>(None, "retry-x") {
        Err(EventStreamError::UnableToParseKafkaHeader(m)) => assert_eq!(m, "retry-x"),
        Ok(_) => panic!("expected an error"),
    }
}

#[test]
fn headers_numbers_are_checked_in_reading_order() {
    assert!(headers_hold_numbers(&metadata("h", "i", 1, 1).to_headers()));
    assert!(headers_hold_numbers(&KafkaHeaders::new()));
    let bad_retry = KafkaHeaders::new()
        .add("host-identifier-x", b"h")
        .add("message-id-x", b"i")
        .add("timestamp-x", b"1")
        .add("retry-x", b"one");
    assert!(!headers_hold_numbers(&bad_retry));
    let bad_timestamp = KafkaHeaders::new()
        .add("host-identifier-x", b"h")
        .add("message-id-x", b"i")
        .add("timestamp-x", b"-1")
        .add("retry-x", b"1");
    assert!(!headers_hold_numbers(&bad_timestamp));
    let no_retry = KafkaHeaders::new()
        .add("host-identifier-x", b"h")
        .add("message-id-x", b"i")
        .add("timestamp-x", b"x");
    assert!(headers_hold_numbers(&no_retry));
}
