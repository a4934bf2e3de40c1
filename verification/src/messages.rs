//! The messages that flow between the processor's actors: a network flow
//! record, its Kafka metadata, and the acknowledgements that end its journey.
use crate::event_stream::errors::EventStreamError;
use vstd::prelude::*;
use vstd::std_specs::convert::FromSpec;

verus! {

/// The outcome of processing the message at an offset.
#[derive(Debug, Clone, Copy, PartialEq, Eq)]
pub enum ProcessedFinished {
    Ack(i64),
    Nack(i64),
}

/// One NetFlow v9 record as exported by the collector.
///
/// `l7_proto` is a 32-bit float on the wire; it is held here by its IEEE-754
/// bit pattern, which carries the value without loss.
#[derive(Debug, Clone)]
pub struct FlowMessage {
    pub out_bytes: u64,
    pub out_pkts: u64,
    pub in_bytes: u64,
    pub in_pkts: u64,
    pub ipv4_src_addr: String,
    pub ipv4_dst_addr: String,
    pub l7_proto_bits: u32,
    pub l4_dst_port: u32,
    pub l4_src_port: u32,
    pub flow_duration_milliseconds: u64,
    pub protocol: u32,
    pub tcp_flags: u32,
}

/// The mathematical value of a [`FlowMessage`].
pub struct FlowMessageView {
    pub out_bytes: u64,
    pub out_pkts: u64,
    pub in_bytes: u64,
    pub in_pkts: u64,
    pub ipv4_src_addr: Seq<char>,
    pub ipv4_dst_addr: Seq<char>,
    pub l7_proto_bits: u32,
    pub l4_dst_port: u32,
    pub l4_src_port: u32,
    pub flow_duration_milliseconds: u64,
    pub protocol: u32,
    pub tcp_flags: u32,
}

impl View for FlowMessage {
    type V = FlowMessageView;

    open spec fn view(&self) -> FlowMessageView {
        FlowMessageView {
            out_bytes: self.out_bytes,
            out_pkts: self.out_pkts,
            in_bytes: self.in_bytes,
            in_pkts: self.in_pkts,
            ipv4_src_addr: self.ipv4_src_addr@,
            ipv4_dst_addr: self.ipv4_dst_addr@,
            l7_proto_bits: self.l7_proto_bits,
            l4_dst_port: self.l4_dst_port,
            l4_src_port: self.l4_src_port,
            flow_duration_milliseconds: self.flow_duration_milliseconds,
            protocol: self.protocol,
            tcp_flags: self.tcp_flags,
        }
    }
}

/// Where a flow record came from and how often its processing was retried.
#[derive(Debug, Clone)]
pub struct FlowMessageMetadata {
    /// Milliseconds since the UNIX epoch at which the record was exported.
    pub timestamp: u64,
    pub host: String,
    pub id: String,
    pub retry: usize,
    pub offset: Option<i64>,
    pub partition: Option<i32>,
}

/// The mathematical value of a [`FlowMessageMetadata`].
pub struct FlowMessageMetadataView {
    pub timestamp: u64,
    pub host: Seq<char>,
    pub id: Seq<char>,
    pub retry: usize,
    pub offset: Option<i64>,
    pub partition: Option<i32>,
}

impl View for FlowMessageMetadata {
    type V = FlowMessageMetadataView;

    open spec fn view(&self) -> FlowMessageMetadataView {
        FlowMessageMetadataView {
            timestamp: self.timestamp,
            host: self.host@,
            id: self.id@,
            retry: self.retry,
            offset: self.offset,
            partition: self.partition,
        }
    }
}

/// The error that `map_hdr` gives for a missing header named `hdr`.
pub open spec fn missing_header_error(hdr: Seq<char>) -> Seq<char> {
    hdr
}

impl FlowMessageMetadata {
    /// The value of a header that was looked up, or an error that names the
    /// header when it is missing.
    pub fn map_hdr<T>(r: Option<(&str, T)>, hdr: &str) -> (res: Result<T, EventStreamError>)
        ensures
            match r {
                Some((_h, v)) => res == Ok::<T, EventStreamError>(v),
                None => res matches Err(EventStreamError::UnableToParseKafkaHeader(m)) && m@
                    == missing_header_error(hdr@),
            },
    {
        match r {
            Some((_h, v)) => Ok(v),
            None => Err(EventStreamError::UnableToParseKafkaHeader(hdr.to_owned())),
        }
    }
}

/// A flow record together with its metadata and, once known, the verdict of
/// the classifier.
#[derive(Debug, Clone)]
pub struct FlowMessageWithMetadata {
    pub flow_message: FlowMessage,
    pub malicious: Option<bool>,
    pub metadata: FlowMessageMetadata,
}

/// The mathematical value of a [`FlowMessageWithMetadata`].
pub struct FlowMessageWithMetadataView {
    pub flow_message: FlowMessageView,
    pub malicious: Option<bool>,
    pub metadata: FlowMessageMetadataView,
}

impl View for FlowMessageWithMetadata {
    type V = FlowMessageWithMetadataView;

    open spec fn view(&self) -> FlowMessageWithMetadataView {
        FlowMessageWithMetadataView {
            flow_message: self.flow_message@,
            malicious: self.malicious,
            metadata: self.metadata@,
        }
    }
}

/// A flow record on its way to the classifier.
#[derive(Debug, Clone)]
pub struct ClassifyFlowMessageWithMetadata(pub FlowMessageWithMetadata);

/// A classified flow record on its way to storage.
#[derive(Debug, Clone)]
pub struct PersistFlowMessageWithMetadata(pub FlowMessageWithMetadata);

impl From<FlowMessageWithMetadata> for ClassifyFlowMessageWithMetadata {
    fn from(m: FlowMessageWithMetadata) -> (r: Self) {
        Self(m)
    }
}

impl vstd::std_specs::convert::FromSpecImpl<FlowMessageWithMetadata> for ClassifyFlowMessageWithMetadata {
    open spec fn obeys_from_spec() -> bool {
        true
    }

    open spec fn from_spec(v: FlowMessageWithMetadata) -> Self {
        ClassifyFlowMessageWithMetadata(v)
    }
}

impl From<ClassifyFlowMessageWithMetadata> for PersistFlowMessageWithMetadata {
    fn from(m: ClassifyFlowMessageWithMetadata) -> (r: Self) {
        Self(m.0)
    }
}

impl vstd::std_specs::convert::FromSpecImpl<ClassifyFlowMessageWithMetadata> for PersistFlowMessageWithMetadata {
    open spec fn obeys_from_spec() -> bool {
        true
    }

    open spec fn from_spec(v: ClassifyFlowMessageWithMetadata) -> Self {
        PersistFlowMessageWithMetadata(v.0)
    }
}

impl From<PersistFlowMessageWithMetadata> for FlowMessageWithMetadata {
    fn from(m: PersistFlowMessageWithMetadata) -> (r: FlowMessageWithMetadata) {
        m.0
    }
}

impl vstd::std_specs::convert::FromSpecImpl<PersistFlowMessageWithMetadata> for FlowMessageWithMetadata {
    open spec fn obeys_from_spec() -> bool {
        true
    }

    open spec fn from_spec(v: PersistFlowMessageWithMetadata) -> Self {
        v.0
    }
}

/// What the end of a message's journey through storage asks of the event
/// stream: acknowledge its offset in a partition, or send it to a retry topic.
#[derive(Debug, Clone)]
pub enum AckMessage {
    Ack(i64, i32),
    NackRetry(FlowMessageWithMetadata),
}

/// Passing a message through the classification and storage stages and back
/// hands the very same message back.
pub proof fn lemma_pipeline_conversions_round_trip(m: FlowMessageWithMetadata)
    ensures
        <FlowMessageWithMetadata as FromSpec<PersistFlowMessageWithMetadata>>::from_spec(
            <PersistFlowMessageWithMetadata as FromSpec<ClassifyFlowMessageWithMetadata>>::from_spec(
                <ClassifyFlowMessageWithMetadata as FromSpec<FlowMessageWithMetadata>>::from_spec(m),
            ),
        ) == m,
{
}

} // verus!
