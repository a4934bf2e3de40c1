//! Storage of classified flow records in ClickHouse: the connection string,
//! the buffer that collects records between flushes, and the acknowledgements
//! that a flush sends back to the event stream.
use crate::decimal::{decimal, u64_to_decimal};
use crate::event_stream::messages::FlushCollectedEventsToPipeline;
use crate::messages::{AckMessage, FlowMessageWithMetadata, PersistFlowMessageWithMetadata};
use vstd::prelude::*;
use vstd::string::*;

verus! {

/// Asks the storage actor to start flushing its buffer periodically.
#[derive(Debug, Clone, Copy)]
pub struct InitFlusher;

/// How to reach ClickHouse.
#[derive(Debug, Clone)]
pub struct ClickhouseSettings {
    host: String,
    port: u16,
    user: String,
    password: String,
}

/// The ClickHouse connection string for a user, password, host and port.
pub open spec fn clickhouse_dsn(user: Seq<char>, password: Seq<char>, host: Seq<char>, port: u16) -> Seq<
    char,
> {
    "tcp://"@ + user + ":"@ + password + "@"@ + host + ":"@ + decimal(port as nat)
        + "/default?compression=lz4&send_retries=0"@
}

/// Writes the ClickHouse connection string for a user, password, host and
/// port.
pub fn format_clickhouse_dsn(user: &str, password: &str, host: &str, port: u16) -> (r: String)
    ensures
        r@ == clickhouse_dsn(user@, password@, host@, port),
{
    let mut s = String::from_str("tcp://");
    s.append(user);
    s.append(":");
    s.append(password);
    s.append("@");
    s.append(host);
    s.append(":");
    let p = u64_to_decimal(port as u64);
    s.append(p.as_str());
    s.append("/default?compression=lz4&send_retries=0");
    s
}

impl ClickhouseSettings {
    pub fn new(host: String, port: u16, user: String, password: String) -> (r: Self)
        ensures
            r.host() == host@,
            r.port() == port,
            r.user() == user@,
            r.password() == password@,
    {
        ClickhouseSettings { host, port, user, password }
    }

    pub closed spec fn host(&self) -> Seq<char> {
        self.host@
    }

    pub closed spec fn port(&self) -> u16 {
        self.port
    }

    pub closed spec fn user(&self) -> Seq<char> {
        self.user@
    }

    pub closed spec fn password(&self) -> Seq<char> {
        self.password@
    }

    /// The connection string that these settings describe, as their
    /// `Display` writes it.
    pub fn to_dsn(&self) -> (r: String)
        ensures
            r@ == clickhouse_dsn(self.user(), self.password(), self.host(), self.port()),
    {
        format_clickhouse_dsn(self.user.as_str(), self.password.as_str(), self.host.as_str(), self.port)
    }
}

/// A record's timestamp in milliseconds as the whole seconds and the
/// nanoseconds of the rest, as storage writes it.
pub fn timestamp_parts(timestamp_millis: u64) -> (r: (u64, u64))
    ensures
        r.0 == timestamp_millis / 1000,
        r.1 == timestamp_millis % 1000 * 1_000_000,
        r.0 * 1000 + r.1 / 1_000_000 == timestamp_millis,
        r.1 < 1_000_000_000,
{
    (timestamp_millis / 1000, timestamp_millis % 1000 * 1_000_000)
}

/// The acknowledgement for a record that storage took into a block (or
/// failed to): its offset and partition on success, a retry otherwise.
pub open spec fn ack_for(m: FlowMessageWithMetadata, pushed: bool) -> AckMessage {
    if pushed {
        AckMessage::Ack(m.metadata.offset->0, m.metadata.partition->0)
    } else {
        AckMessage::NackRetry(m)
    }
}

/// The record can be acknowledged: one that was taken into a block knows its
/// offset and partition.
pub open spec fn ackable(m: FlowMessageWithMetadata, pushed: bool) -> bool {
    pushed ==> m.metadata.offset is Some && m.metadata.partition is Some
}

/// The acknowledgement for a record that storage took into a block, or
/// failed to.
pub fn ack_for_push(f: FlowMessageWithMetadata, pushed: bool) -> (r: AckMessage)
    requires
        ackable(f, pushed),
    ensures
        r == ack_for(f, pushed),
{
    if pushed {
        AckMessage::Ack(f.metadata.offset.unwrap(), f.metadata.partition.unwrap())
    } else {
        AckMessage::NackRetry(f)
    }
}

/// What saving a batch met: no connection, or the records were taken into a
/// block (each with its own outcome) and the block was inserted, or not.
#[derive(Debug)]
pub enum StashOutcome {
    HandleFailed(String),
    Pushed { pushed: Vec<bool>, insert_error: Option<String> },
}

/// A failed save, with the text of its cause and what to send back for each
/// record of the batch.
#[derive(Debug)]
pub enum StorageError {
    Database(String),
    DatabaseSave(String, Vec<AckMessage>),
}

/// Retries for every record of a batch, in order.
pub open spec fn all_nacks(msgs: Seq<FlowMessageWithMetadata>) -> Seq<AckMessage> {
    msgs.map_values(|m: FlowMessageWithMetadata| AckMessage::NackRetry(m))
}

/// The acknowledgements of records according to whether each was taken into
/// the block.
pub open spec fn acks_for(msgs: Seq<FlowMessageWithMetadata>, pushed: Seq<bool>) -> Seq<AckMessage> {
    Seq::new(msgs.len(), |i: int| ack_for(msgs[i], pushed[i]))
}

/// The batch can be acknowledged: there is an outcome for every record, and
/// those taken into the block know their offset and partition.
pub open spec fn stash_acknowledgeable(
    msgs: Seq<FlowMessageWithMetadata>,
    outcome: StashOutcome,
) -> bool {
    match outcome {
        StashOutcome::HandleFailed(_) => true,
        StashOutcome::Pushed { pushed, insert_error: _ } => pushed@.len() == msgs.len() && forall|
            i: int,
        |
            0 <= i < msgs.len() ==> ackable(#[trigger] msgs[i], pushed@[i]),
    }
}

/// Whether the batch can be acknowledged (see [`stash_acknowledgeable`]).
pub fn stash_can_be_acknowledged(msgs: &Vec<FlowMessageWithMetadata>, outcome: &StashOutcome) -> (r:
    bool)
    ensures
        r == stash_acknowledgeable(msgs@, *outcome),
{
    match outcome {
        StashOutcome::HandleFailed(_) => true,
        StashOutcome::Pushed { pushed, insert_error: _ } => {
            if pushed.len() != msgs.len() {
                return false;
            }
            let mut i: usize = 0;
            while i < msgs.len()
                invariant
                    i <= msgs@.len(),
                    pushed@.len() == msgs@.len(),
                    stash_acknowledgeable(msgs@, *outcome) == forall|k: int|
                        0 <= k < msgs@.len() ==> ackable(#[trigger] msgs@[k], pushed@[k]),
                    forall|k: int| 0 <= k < i ==> ackable(#[trigger] msgs@[k], pushed@[k]),
                decreases msgs@.len() - i,
            {
                let m = &msgs[i];
                if pushed[i] && (m.metadata.offset.is_none() || m.metadata.partition.is_none()) {
                    assert(!ackable(msgs@[i as int], pushed@[i as int]));
                    return false;
                }
                i = i + 1;
            }
            true
        },
    }
}

/// What saving a batch gives: one acknowledgement per record when the block
/// was inserted; otherwise an error with a retry for every record.
pub fn stash_result(msgs: Vec<FlowMessageWithMetadata>, outcome: StashOutcome) -> (r: Result<
    Vec<AckMessage>,
    StorageError,
>)
    requires
        stash_acknowledgeable(msgs@, outcome),
    ensures
        match outcome {
            StashOutcome::HandleFailed(e) => r matches Err(StorageError::DatabaseSave(t, acks))
                && t == e && acks@ == all_nacks(msgs@),
            StashOutcome::Pushed { pushed, insert_error: None } => r matches Ok(acks) && acks@
                == acks_for(msgs@, pushed@),
            StashOutcome::Pushed { pushed: _, insert_error: Some(e) } => r matches Err(
                StorageError::DatabaseSave(t, acks),
            ) && t == e && acks@ == all_nacks(msgs@),
        },
{
    match outcome {
        StashOutcome::HandleFailed(e) => Err(StorageError::DatabaseSave(e, nack_all(msgs))),
        StashOutcome::Pushed { pushed, insert_error } => match insert_error {
            None => Ok(ack_each(msgs, &pushed)),
            Some(e) => Err(StorageError::DatabaseSave(e, nack_all(msgs))),
        },
    }
}

/// A retry for every record, in order.
fn nack_all(msgs: Vec<FlowMessageWithMetadata>) -> (r: Vec<AckMessage>)
    ensures
        r@ == all_nacks(msgs@),
{
    let ghost orig = msgs@;
    let count = msgs.len();
    let mut rest = msgs;
    let mut acks: Vec<AckMessage> = Vec::new();
    let mut taken: usize = 0;
    while rest.len() > 0
        invariant
            taken + rest@.len() == orig.len(),
            orig.len() == count,
            rest@ == orig.subrange(taken as int, orig.len() as int),
            acks@ == all_nacks(orig.subrange(0, taken as int)),
        decreases rest@.len(),
    {
        let m = rest.remove(0);
        acks.push(AckMessage::NackRetry(m));
        proof {
            assert(orig.subrange(0, taken + 1) =~= orig.subrange(0, taken as int).push(m));
        }
        taken = taken + 1;
        assert(rest@ =~= orig.subrange(taken as int, orig.len() as int));
        assert(acks@ =~= all_nacks(orig.subrange(0, taken as int)));
    }
    assert(orig.subrange(0, taken as int) =~= orig);
    acks
}

/// The acknowledgement of each record according to whether it was taken
/// into the block, in order.
fn ack_each(msgs: Vec<FlowMessageWithMetadata>, pushed: &Vec<bool>) -> (r: Vec<AckMessage>)
    requires
        pushed@.len() == msgs@.len(),
        forall|i: int| 0 <= i < msgs@.len() ==> ackable(#[trigger] msgs@[i], pushed@[i]),
    ensures
        r@ == acks_for(msgs@, pushed@),
{
    let ghost orig = msgs@;
    let count = msgs.len();
    let mut rest = msgs;
    let mut acks: Vec<AckMessage> = Vec::new();
    let mut taken: usize = 0;
    while rest.len() > 0
        invariant
            taken + rest@.len() == orig.len(),
            orig.len() == count,
            pushed@.len() == orig.len(),
            forall|i: int| 0 <= i < orig.len() ==> ackable(#[trigger] orig[i], pushed@[i]),
            rest@ == orig.subrange(taken as int, orig.len() as int),
            acks@ == acks_for(orig.subrange(0, taken as int), pushed@.subrange(0, taken as int)),
        decreases rest@.len(),
    {
        let m = rest.remove(0);
        assert(m == orig[taken as int]);
        let a = ack_for_push(m, pushed[taken]);
        acks.push(a);
        taken = taken + 1;
        assert(rest@ =~= orig.subrange(taken as int, orig.len() as int));
        assert(acks@ =~= acks_for(orig.subrange(0, taken as int), pushed@.subrange(0, taken as int)));
    }
    assert(orig.subrange(0, taken as int) =~= orig);
    assert(pushed@.subrange(0, taken as int) =~= pushed@);
    acks
}

/// The records that storage collects between two flushes.
pub struct StorageBuffer {
    buffer: Vec<FlowMessageWithMetadata>,
}

impl View for StorageBuffer {
    type V = Seq<FlowMessageWithMetadata>;

    closed spec fn view(&self) -> Seq<FlowMessageWithMetadata> {
        self.buffer@
    }
}

impl StorageBuffer {
    pub fn new() -> (r: Self)
        ensures
            r@ == Seq::<FlowMessageWithMetadata>::empty(),
    {
        StorageBuffer { buffer: Vec::new() }
    }

    /// A classified record arrives to be stored.
    pub fn persist(&mut self, msg: PersistFlowMessageWithMetadata)
        ensures
            final(self)@ == old(self)@.push(msg.0),
    {
        self.buffer.push(msg.0);
    }

    /// Takes everything collected so far, in arrival order, and leaves the
    /// buffer empty.
    pub fn take_batch(&mut self) -> (r: Vec<FlowMessageWithMetadata>)
        ensures
            r@ == old(self)@,
            final(self)@ == Seq::<FlowMessageWithMetadata>::empty(),
    {
        let mut batch = Vec::new();
        std::mem::swap(&mut batch, &mut self.buffer);
        batch
    }
}

/// What a flush sends back: the acknowledgements to issue, one by one, and
/// room for as many records as were acknowledged.
pub fn finish_flush(result: Result<Vec<AckMessage>, StorageError>) -> (r: (
    Vec<AckMessage>,
    FlushCollectedEventsToPipeline,
))
    requires
        !(result matches Err(StorageError::Database(_))),
    ensures
        match result {
            Ok(acks) => r.0 == acks,
            Err(StorageError::DatabaseSave(_, acks)) => r.0 == acks,
            Err(StorageError::Database(_)) => false,
        },
        r.1.0 == r.0@.len(),
{
    let acks = match result {
        Ok(acks) => acks,
        Err(StorageError::DatabaseSave(_, acks)) => acks,
        Err(StorageError::Database(_)) => {
            assert(false);
            Vec::new()
        },
    };
    let n = acks.len();
    (acks, FlushCollectedEventsToPipeline(n))
}

/// A flush hands back exactly as much room as the batch it took: one
/// acknowledgement per stored or refused record, whatever the database did.
pub proof fn lemma_flush_returns_room_for_batch(
    batch: Seq<FlowMessageWithMetadata>,
    pushed: Seq<bool>,
)
    requires
        pushed.len() == batch.len(),
    ensures
        acks_for(batch, pushed).len() == batch.len(),
        all_nacks(batch).len() == batch.len(),
{
}

} // verus!
