//! Kafka offsets: the positions in a partition that the consumer seeks to and
//! commits, and librdkafka's integer encoding of them.
use vstd::prelude::*;

verus! {

/// A position in a Kafka partition, as rdkafka's `Offset` names it.
#[derive(Debug, Clone, Copy, PartialEq, Eq, Structural)]
pub enum KafkaOffset {
    /// The beginning of the partition.
    Beginning,
    /// The end of the partition.
    End,
    /// The offset stored for the consumer group.
    Stored,
    /// Not assigned or invalid.
    Invalid,
    /// A specific offset.
    Offset(i64),
    /// An offset counted back from the end of the partition.
    OffsetTail(i64),
}

/// What `Offset::from_raw` gives for librdkafka's integer encoding `raw`:
/// `-2`, `-1`, `-1000` and `-1001` are the named positions, values at or
/// below `-2000` count back from the end, all others are plain offsets.
pub open spec fn offset_from_raw_spec(raw: i64) -> KafkaOffset {
    if raw == -2 {
        KafkaOffset::Beginning
    } else if raw == -1 {
        KafkaOffset::End
    } else if raw == -1000 {
        KafkaOffset::Stored
    } else if raw == -1001 {
        KafkaOffset::Invalid
    } else if raw <= -2000 {
        KafkaOffset::OffsetTail((-(raw + 2000)) as i64)
    } else {
        KafkaOffset::Offset(raw)
    }
}

/// rdkafka's `Offset::from_raw`, which decodes librdkafka's integer encoding
/// of an offset; the contract restates its source, case by case.
#[verifier::external_body]
fn offset_from_raw(raw: i64) -> (r: KafkaOffset)
    ensures
        r == offset_from_raw_spec(raw),
{
    match rdkafka::Offset::from_raw(raw) {
        rdkafka::Offset::Beginning => KafkaOffset::Beginning,
        rdkafka::Offset::End => KafkaOffset::End,
        rdkafka::Offset::Stored => KafkaOffset::Stored,
        rdkafka::Offset::Invalid => KafkaOffset::Invalid,
        rdkafka::Offset::Offset(n) => KafkaOffset::Offset(n),
        rdkafka::Offset::OffsetTail(n) => KafkaOffset::OffsetTail(n),
    }
}

/// The offset under which the guard commits `offset` (`Offset::from_raw`).
pub fn offset_to_commit(offset: i64) -> (r: KafkaOffset)
    ensures
        r == offset_from_raw_spec(offset),
{
    offset_from_raw(offset)
}

/// Why looking up the committed offset of a topic failed.
#[derive(Debug, Clone, Copy, PartialEq, Eq, Structural)]
pub enum OffsetLookupError {
    /// The broker does not know the topic or partition yet.
    UnknownTopicOrPartition,
    /// Any other failure.
    Other,
}

/// The current offset of a topic as `get_current_offset` reports it: the
/// committed offset when the lookup succeeds, the beginning when the broker
/// does not know the topic yet, and `Invalid` on any other failure.
pub fn current_offset_from_lookup(lookup: Result<KafkaOffset, OffsetLookupError>) -> (r:
    KafkaOffset)
    ensures
        r == match lookup {
            Ok(o) => o,
            Err(OffsetLookupError::UnknownTopicOrPartition) => KafkaOffset::Beginning,
            Err(OffsetLookupError::Other) => KafkaOffset::Invalid,
        },
{
    match lookup {
        Ok(o) => o,
        Err(OffsetLookupError::UnknownTopicOrPartition) => KafkaOffset::Beginning,
        Err(OffsetLookupError::Other) => KafkaOffset::Invalid,
    }
}

/// Where the consumer starts reading a topic: at the committed offset, or at
/// offset 0 when none is valid.
pub fn starting_offset(committed: KafkaOffset) -> (r: KafkaOffset)
    ensures
        r == match committed {
            KafkaOffset::Invalid => KafkaOffset::Offset(0),
            o => o,
        },
{
    match committed {
        KafkaOffset::Invalid => offset_from_raw(0),
        o => o,
    }
}

} // verus!
