//! The classifier: where it is reached, what a classified record becomes,
//! and the synthetic records with which it can be exercised.
use crate::messages::{
    ClassifyFlowMessageWithMetadata,
    FlowMessage,
    FlowMessageView,
    PersistFlowMessageWithMetadata,
};
use vstd::prelude::*;
use vstd::string::*;

verus! {

/// Where the classification service listens.
#[derive(Debug, Clone)]
pub struct Classifier {
    pub host: String,
    pub port: u16,
}

/// A record that the classifier judged: the same record with the verdict
/// set, on its way to storage.
pub fn classified(msg: ClassifyFlowMessageWithMetadata, malicious: bool) -> (r: PersistFlowMessageWithMetadata)
    ensures
        r.0.flow_message == msg.0.flow_message,
        r.0.metadata == msg.0.metadata,
        r.0.malicious == Some(malicious),
{
    let mut m = msg.0;
    m.malicious = Some(malicious);
    PersistFlowMessageWithMetadata(m)
}

/// The IEEE-754 bits of the `f32` 7.2, the layer-7 protocol of the synthetic
/// records.
pub const SYNTHETIC_L7_PROTO_BITS: u32 = 0x40E6_6666;

/// The `i`-th synthetic record of the stream that exercises the classifier.
pub open spec fn synthetic_flow(i: usize) -> FlowMessageView {
    FlowMessageView {
        out_bytes: (1 + i) as u64,
        out_pkts: 2,
        in_bytes: 3,
        in_pkts: 4,
        ipv4_src_addr: "192.168.1.1"@,
        ipv4_dst_addr: "192.168.1.2"@,
        l7_proto_bits: SYNTHETIC_L7_PROTO_BITS,
        l4_dst_port: 5507,
        l4_src_port: 4091,
        flow_duration_milliseconds: 123,
        protocol: 7,
        tcp_flags: 11,
    }
}

/// The `i`-th record of the synthetic request stream that exercises the
/// classifier; the stream yields these for `i` from 1 on.
pub fn classifier_request(i: usize) -> (r: FlowMessage)
    requires
        i < usize::MAX,
    ensures
        r@ == synthetic_flow(i),
{
    FlowMessage {
        out_bytes: 1 + i as u64,
        out_pkts: 2,
        in_bytes: 3,
        in_pkts: 4,
        ipv4_src_addr: String::from_str("192.168.1.1"),
        ipv4_dst_addr: String::from_str("192.168.1.2"),
        l7_proto_bits: SYNTHETIC_L7_PROTO_BITS,
        l4_dst_port: 5507,
        l4_src_port: 4091,
        flow_duration_milliseconds: 123,
        protocol: 7,
        tcp_flags: 11,
    }
}

} // verus!
