use krewetka::classification::{classified, classifier_request};
use krewetka::messages::{
    ClassifyFlowMessageWithMetadata, FlowMessageMetadata, FlowMessageWithMetadata,
    PersistFlowMessageWithMetadata,
};
use krewetka::migrator::{hasher, migration_file_name, validate};

fn record() -> FlowMessageWithMetadata {
    FlowMessageWithMetadata {
        flow_message: classifier_request(1),
        malicious: None,
        metadata: FlowMessageMetadata {
            timestamp: 9,
            host: "h".into(),
            id: "x".into(),
            retry: 0,
            offset: Some(4),
            partition: Some(0),
        },
    }
}

#[test]
fn classifier_requests_are_synthetic_flows() {
    let f = classifier_request(1);
    assert_eq!(f.out_bytes, 2);
    assert_eq!(f.out_pkts, 2);
    assert_eq!(f.ipv4_src_addr, "192.168.1.1");
    assert_eq!(f.ipv4_dst_addr, "192.168.1.2");
    assert_eq!(f32::from_bits(f.l7_proto_bits), 7.2f32);
    assert_eq!(classifier_request(41).out_bytes, 42);
}

#[test]
fn classified_record_keeps_everything_but_the_verdict() {
    let persisted = classified(ClassifyFlowMessageWithMetadata::from(record()), true);
    assert_eq!(persisted.0.malicious, Some(true));
    assert_eq!(persisted.0.metadata.offset, Some(4));
    assert_eq!(persisted.0.flow_message.out_bytes, 2);
    let back = FlowMessageWithMetadata::from(PersistFlowMessageWithMetadata::from(
        ClassifyFlowMessageWithMetadata::from(record()),
    ));
    assert_eq!(back.metadata.id, "x");
    assert_eq!(back.malicious, None);
}

#[test]
fn migration_files() {
    assert_eq!(migration_file_name(1700000000), "1700000000.sql");
    assert_eq!(migration_file_name(-12), "-12.sql");
    assert!(validate("1700000000.sql"));
    assert!(validate("1700000000_create_messages.sql"));
    assert!(!validate("170000000.sql"));
    assert!(!validate("init.sql"));
    assert!(validate("1234567890"));
    assert!(validate("12345678901"));
    assert!(!validate("123456789a.sql"));
    assert!(!validate("x1234567890.sql"));
    assert!(!validate("١٢٣٤٥٦٧٨٩٠.sql"));
    assert_eq!(hasher("abc"), hasher("abc"));
}
