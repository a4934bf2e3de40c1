//! Kafka message headers, and how flow metadata is written into them and read
//! back from them.
use crate::decimal::{decimal, lemma_parse_decimal, parse_u64, parse_unsigned, parse_usize, u64_to_decimal, usize_to_decimal};
use crate::event_stream::errors::EventStreamError;
use crate::messages::{FlowMessageMetadata, FlowMessageMetadataView, missing_header_error};
use vstd::prelude::*;
use vstd::slice::slice_to_vec;
use vstd::string::*;
use vstd::utf8::*;

verus! {

broadcast use {encode_utf8_valid_utf8, encode_utf8_decode_utf8};

/// One header of a Kafka message: a name and raw bytes.
#[derive(Debug, Clone)]
pub struct KafkaHeader {
    pub key: String,
    pub value: Vec<u8>,
}

/// The headers of a Kafka message, in order.
#[derive(Debug, Clone)]
pub struct KafkaHeaders {
    pub entries: Vec<KafkaHeader>,
}

impl View for KafkaHeaders {
    type V = Seq<(Seq<char>, Seq<u8>)>;

    open spec fn view(&self) -> Seq<(Seq<char>, Seq<u8>)> {
        self.entries@.map_values(|h: KafkaHeader| (h.key@, h.value@))
    }
}

impl KafkaHeaders {
    /// No headers.
    pub fn new() -> (r: Self)
        ensures
            r@ == Seq::<(Seq<char>, Seq<u8>)>::empty(),
    {
        let r = KafkaHeaders { entries: Vec::new() };
        assert(r@ =~= Seq::<(Seq<char>, Seq<u8>)>::empty());
        r
    }

    /// These headers followed by one more.
    pub fn add(self, key: &str, value: &[u8]) -> (r: Self)
        ensures
            r@ == self@.push((key@, value@)),
    {
        let mut entries = self.entries;
        let ghost before = entries@;
        entries.push(KafkaHeader { key: key.to_owned(), value: slice_to_vec(value) });
        let r = KafkaHeaders { entries };
        assert(r@ =~= before.map_values(|h: KafkaHeader| (h.key@, h.value@)).push((key@, value@)));
        r
    }

    /// The number of headers.
    pub fn count(&self) -> (n: usize)
        ensures
            n == self@.len(),
    {
        self.entries.len()
    }

    /// The name and value of the header at `idx`, if there is one.
    pub fn get(&self, idx: usize) -> (r: Option<(&str, &[u8])>)
        ensures
            idx < self@.len() ==> (r matches Some(p) && p.0@ == self@[idx as int].0 && p.1@
                == self@[idx as int].1),
            idx >= self@.len() ==> r is None,
    {
        if idx < self.entries.len() {
            let h = &self.entries[idx];
            Some((h.key.as_str(), h.value.as_slice()))
        } else {
            None
        }
    }
}

/// The text with which `str::from_utf8` reports that `bytes` are not UTF-8
/// (the `Display` of its `Utf8Error`); a function of the bytes alone.
pub uninterp spec fn utf8_error_text(bytes: Seq<u8>) -> Seq<char>;

/// Decodes a header value as text, as rdkafka's `FromBytes` for `str` does
/// (it is `std::str::from_utf8`): the value is text exactly when it is valid
/// UTF-8, and then its characters are the ones the bytes encode; otherwise the
/// error's text is handed back.
#[verifier::external_body]
fn header_value_text(bytes: &[u8]) -> (r: Result<String, String>)
    ensures
        r is Ok <==> valid_utf8(bytes@),
        r matches Ok(s) ==> s@ == decode_utf8(bytes@),
        r matches Err(m) ==> m@ == utf8_error_text(bytes@),
{
    match <str as rdkafka::message::FromBytes>::from_bytes(bytes) {
        Ok(s) => Ok(s.to_owned()),
        Err(e) => Err(e.to_string()),
    }
}

/// The text of the header at `idx`, or the error that reading it gives: the
/// header's `name` when it is missing, the UTF-8 error when it is not text.
pub open spec fn header_text(h: Seq<(Seq<char>, Seq<u8>)>, idx: int, name: Seq<char>) -> Result<
    Seq<char>,
    Seq<char>,
> {
    if 0 <= idx < h.len() {
        if valid_utf8(h[idx].1) {
            Ok(decode_utf8(h[idx].1))
        } else {
            Err(utf8_error_text(h[idx].1))
        }
    } else {
        Err(missing_header_error(name))
    }
}

/// Reading the headers gets past the two numeric headers without a parse
/// failure, which the processor treats as a bug: the
/// retry header, once reached, holds a `usize`, and the timestamp header, once
/// reached, a `u64`.
pub open spec fn metadata_headers_parse(h: Seq<(Seq<char>, Seq<u8>)>) -> bool {
    match header_text(h, 0, "host-identifier-x"@) {
        Err(_) => true,
        Ok(_) => match header_text(h, 1, "message-id-x"@) {
            Err(_) => true,
            Ok(_) => match header_text(h, 3, "retry-x"@) {
                Err(_) => true,
                Ok(rt) => parse_unsigned(rt, usize::MAX as nat) is Some && match header_text(
                    h,
                    2,
                    "timestamp-x"@,
                ) {
                    Err(_) => true,
                    Ok(tt) => parse_unsigned(tt, u64::MAX as nat) is Some,
                },
            },
        },
    }
}

/// The metadata that the headers of a Kafka message carry: host at position
/// 0, message id at 1, timestamp at 2 and retry count at 3, read in the order
/// host, id, retry, timestamp; the first error met is the result.
pub open spec fn metadata_from_headers(h: Seq<(Seq<char>, Seq<u8>)>) -> Result<
    FlowMessageMetadataView,
    Seq<char>,
> {
    match header_text(h, 0, "host-identifier-x"@) {
        Err(e) => Err(e),
        Ok(host) => match header_text(h, 1, "message-id-x"@) {
            Err(e) => Err(e),
            Ok(id) => match header_text(h, 3, "retry-x"@) {
                Err(e) => Err(e),
                Ok(rt) => match header_text(h, 2, "timestamp-x"@) {
                    Err(e) => Err(e),
                    Ok(tt) => Ok(
                        FlowMessageMetadataView {
                            timestamp: parse_unsigned(tt, u64::MAX as nat)->0 as u64,
                            host,
                            id,
                            retry: parse_unsigned(rt, usize::MAX as nat)->0 as usize,
                            offset: None,
                            partition: None,
                        },
                    ),
                },
            },
        },
    }
}

/// The headers under which flow metadata is published: host, message id,
/// timestamp and retry count, each as UTF-8 text, the numbers in decimal.
pub open spec fn metadata_headers(m: FlowMessageMetadataView) -> Seq<(Seq<char>, Seq<u8>)> {
    seq![
        ("host-identifier-x"@, encode_utf8(m.host)),
        ("message-id-x"@, encode_utf8(m.id)),
        ("timestamp-x"@, encode_utf8(decimal(m.timestamp as nat))),
        ("retry-x"@, encode_utf8(decimal(m.retry as nat))),
    ]
}

/// The text of the header at `idx`, or the error that reading it gives.
fn read_header_text(headers: &KafkaHeaders, idx: usize, name: &str) -> (r: Result<
    String,
    EventStreamError,
>)
    ensures
        r matches Ok(s) ==> header_text(headers@, idx as int, name@) == Ok::<_, Seq<char>>(s@),
        r matches Err(e) ==> header_text(headers@, idx as int, name@) == Err::<Seq<char>, _>(
            e.message(),
        ),
{
    let value = FlowMessageMetadata::map_hdr(headers.get(idx), name)?;
    match header_value_text(value) {
        Ok(s) => Ok(s),
        Err(m) => Err(EventStreamError::UnableToParseKafkaHeader(m)),
    }
}

/// Whether the text of a header, if it can be read, is an unsigned number of
/// at most `max`; `true` when the header cannot be read at all.
fn header_number_parses(headers: &KafkaHeaders, idx: usize, name: &str, max: u64) -> (r: (bool, bool))
    requires
        max == usize::MAX || max == u64::MAX,
    ensures
        r.0 == (header_text(headers@, idx as int, name@) is Ok),
        r.0 ==> r.1 == (parse_unsigned(header_text(headers@, idx as int, name@)->Ok_0, max as nat) is Some),
{
    match read_header_text(headers, idx, name) {
        Ok(text) => {
            let parsed = if max == u64::MAX {
                parse_u64(text.as_str()).is_some()
            } else {
                parse_usize(text.as_str()).is_some()
            };
            (true, parsed)
        },
        Err(_) => (false, true),
    }
}

/// Whether reading metadata from the headers gets past the numeric headers
/// without meeting a retry count or timestamp that is not a number.
pub fn headers_hold_numbers(headers: &KafkaHeaders) -> (r: bool)
    ensures
        r == metadata_headers_parse(headers@),
{
    let host = read_header_text(headers, 0, "host-identifier-x");
    if host.is_err() {
        return true;
    }
    let id = read_header_text(headers, 1, "message-id-x");
    if id.is_err() {
        return true;
    }
    let (retry_read, retry_parses) = header_number_parses(headers, 3, "retry-x", usize::MAX as u64);
    if !retry_read {
        return true;
    }
    if !retry_parses {
        return false;
    }
    let (timestamp_read, timestamp_parses) = header_number_parses(headers, 2, "timestamp-x", u64::MAX);
    !timestamp_read || timestamp_parses
}

impl FlowMessageMetadata {
    /// Reads flow metadata from the headers of a Kafka message; offset and
    /// partition are left unset.
    pub fn try_from_headers(headers: &KafkaHeaders) -> (r: Result<Self, EventStreamError>)
        requires
            metadata_headers_parse(headers@),
        ensures
            r matches Ok(m) ==> metadata_from_headers(headers@) == Ok::<_, Seq<char>>(m@),
            r matches Err(e) ==> metadata_from_headers(headers@) == Err::<
                FlowMessageMetadataView,
                _,
            >(e.message()),
    {
        let host = read_header_text(headers, 0, "host-identifier-x")?;
        let id = read_header_text(headers, 1, "message-id-x")?;
        let retry_text = read_header_text(headers, 3, "retry-x")?;
        let retry = match parse_usize(retry_text.as_str()) {
            Some(v) => v,
            None => {
                assert(false);
                0
            },
        };
        let timestamp_text = read_header_text(headers, 2, "timestamp-x")?;
        let timestamp = match parse_u64(timestamp_text.as_str()) {
            Some(v) => v,
            None => {
                assert(false);
                0
            },
        };
        Ok(FlowMessageMetadata { host, id, timestamp, retry, offset: None, partition: None })
    }

    /// The metadata of a message received at `offset`: read from its headers
    /// (which must hold metadata), with the
    /// offset set.
    pub fn from_received_message(headers: &KafkaHeaders, offset: i64) -> (r: Self)
        requires
            metadata_headers_parse(headers@),
            metadata_from_headers(headers@) is Ok,
        ensures
            r@ == (FlowMessageMetadataView {
                offset: Some(offset),
                ..metadata_from_headers(headers@)->Ok_0
            }),
    {
        let mut metadata = match FlowMessageMetadata::try_from_headers(headers) {
            Ok(m) => m,
            Err(_) => {
                assert(false);
                FlowMessageMetadata {
                    timestamp: 0,
                    host: String::new(),
                    id: String::new(),
                    retry: 0,
                    offset: None,
                    partition: None,
                }
            },
        };
        metadata.offset = Some(offset);
        metadata
    }

    /// The headers under which this metadata is published to a topic.
    pub fn to_headers(&self) -> (r: KafkaHeaders)
        ensures
            r@ == metadata_headers(self@),
    {
        let timestamp = u64_to_decimal(self.timestamp);
        let retry = usize_to_decimal(self.retry);
        let r = KafkaHeaders::new().add("host-identifier-x", self.host.as_str().as_bytes()).add(
            "message-id-x",
            self.id.as_str().as_bytes(),
        ).add("timestamp-x", timestamp.as_str().as_bytes()).add(
            "retry-x",
            retry.as_str().as_bytes(),
        );
        assert(r@ =~= metadata_headers(self@));
        r
    }
}

/// Metadata published under its headers reads back as the same metadata,
/// without offset and partition, which the headers do not carry; reading
/// them never meets a number that does not parse.
pub proof fn lemma_metadata_headers_round_trip(m: FlowMessageMetadataView)
    ensures
        metadata_headers_parse(metadata_headers(m)),
        metadata_from_headers(metadata_headers(m)) == Ok::<_, Seq<char>>(
            FlowMessageMetadataView { offset: None, partition: None, ..m },
        ),
{
    lemma_parse_decimal(m.retry as nat, usize::MAX as nat);
    lemma_parse_decimal(m.timestamp as nat, u64::MAX as nat);
    let h = metadata_headers(m);
    assert(header_text(h, 0, "host-identifier-x"@) == Ok::<_, Seq<char>>(m.host));
    assert(header_text(h, 1, "message-id-x"@) == Ok::<_, Seq<char>>(m.id));
    assert(header_text(h, 2, "timestamp-x"@) == Ok::<_, Seq<char>>(decimal(m.timestamp as nat)));
    assert(header_text(h, 3, "retry-x"@) == Ok::<_, Seq<char>>(decimal(m.retry as nat)));
}

/// Republishing a message under headers rebuilt from the metadata read from
/// its headers keeps that metadata: read again, it is the same.
pub proof fn lemma_republish_keeps_metadata(h: Seq<(Seq<char>, Seq<u8>)>)
    requires
        metadata_from_headers(h) is Ok,
    ensures
        metadata_from_headers(metadata_headers(metadata_from_headers(h)->Ok_0)) == metadata_from_headers(
            h,
        ),
{
    lemma_metadata_headers_round_trip(metadata_from_headers(h)->Ok_0);
}

} // verus!
