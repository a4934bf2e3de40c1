//! The decisions of the event stream actor: what to do with an
//! acknowledgement, and how the consumer paces itself by the room that
//! storage grants it.
use crate::event_stream::transport::RetrierExt;
use crate::messages::{AckMessage, FlowMessageWithMetadata, FlowMessageWithMetadataView};
use vstd::prelude::*;

verus! {

/// What the event stream does with an acknowledgement.
#[derive(Debug)]
pub enum AckAction {
    /// Store the offset of a processed message of a partition.
    Ack { offset: i64, partition: i32 },
    /// Publish the message, with its retry count raised, to `topic`, then
    /// store its offset.
    ProduceThenAck { topic: String, msg: FlowMessageWithMetadata, offset: i64, partition: i32 },
    /// Nothing: the message has no retry topic left.
    Drop,
}

/// The acknowledgement can be handled without a panic: a failed message has
/// not reached the largest retry count, and when it goes to a retry topic its
/// offset and partition are known.
pub open spec fn ack_handled<R: RetrierExt>(retrier: &R, msg: AckMessage) -> bool {
    match msg {
        AckMessage::Ack(_, _) => true,
        AckMessage::NackRetry(m) => m.metadata.retry < usize::MAX && (retrier.topic_for_retry(
            (m.metadata.retry + 1) as usize,
        ) is Some ==> m.metadata.offset is Some && m.metadata.partition is Some),
    }
}

/// Whether the acknowledgement can be handled (see [`ack_handled`]).
pub fn ack_can_be_handled<R: RetrierExt>(retrier: &R, msg: &AckMessage) -> (r: bool)
    requires
        retrier.routes(),
    ensures
        r == ack_handled(retrier, *msg),
{
    match msg {
        AckMessage::Ack(_, _) => true,
        AckMessage::NackRetry(m) => {
            if m.metadata.retry == usize::MAX {
                return false;
            }
            match retrier.get_topic_based_on_retry(m.metadata.retry + 1) {
                Some(_) => m.metadata.offset.is_some() && m.metadata.partition.is_some(),
                None => true,
            }
        },
    }
}

/// Handles an acknowledgement: a success stores the offset; a failure goes
/// to the topic for its next retry, if there is one, and its offset is stored
/// after it was published there.
pub fn handle_ack<R: RetrierExt>(retrier: &R, msg: AckMessage) -> (r: AckAction)
    requires
        retrier.routes(),
        ack_handled(retrier, msg),
    ensures
        match msg {
            AckMessage::Ack(offset, partition) => r == AckAction::Ack { offset, partition },
            AckMessage::NackRetry(m) => {
                let next = (m.metadata.retry + 1) as usize;
                match retrier.topic_for_retry(next) {
                    None => r is Drop,
                    Some(t) => r matches AckAction::ProduceThenAck {
                        topic,
                        msg: sent,
                        offset,
                        partition,
                    } && topic@ == t && sent@ == (FlowMessageWithMetadataView {
                        metadata: crate::messages::FlowMessageMetadataView {
                            retry: next,
                            ..m.metadata@
                        },
                        ..m@
                    }) && Some(offset) == m.metadata.offset && Some(partition)
                        == m.metadata.partition,
                }
            },
        },
{
    match msg {
        AckMessage::Ack(offset, partition) => AckAction::Ack { offset, partition },
        AckMessage::NackRetry(mut m) => {
            m.metadata.retry = m.metadata.retry + 1;
            match retrier.get_topic_based_on_retry(m.metadata.retry) {
                Some(topic) => {
                    let offset = m.metadata.offset.unwrap();
                    let partition = m.metadata.partition.unwrap();
                    AckAction::ProduceThenAck { topic, msg: m, offset, partition }
                },
                None => AckAction::Drop,
            }
        },
    }
}

/// What the consumer does next.
#[derive(Debug, Clone, Copy, PartialEq, Eq, Structural)]
pub enum ConsumeStep {
    /// Wait until storage grants room for more messages.
    WaitForCapacity,
    /// Receive the next message and forward it.
    ReceiveMessage,
}

/// The consumer's pacing: how many messages it forwarded under the current
/// grant of room, and that grant, if one is open.
pub struct ConsumeCredit {
    counter: usize,
    capacity: Option<usize>,
}

/// The mathematical value of a [`ConsumeCredit`].
pub struct ConsumeCreditView {
    pub counter: nat,
    pub capacity: Option<nat>,
}

impl View for ConsumeCredit {
    type V = ConsumeCreditView;

    closed spec fn view(&self) -> ConsumeCreditView {
        ConsumeCreditView {
            counter: self.counter as nat,
            capacity: match self.capacity {
                Some(c) => Some(c as nat),
                None => None,
            },
        }
    }
}

/// The state in which the consumer waits for a grant.
pub open spec fn waiting() -> ConsumeCreditView {
    ConsumeCreditView { counter: 0, capacity: None }
}

/// A grant of room for `capacity` messages arrives: an empty grant is used up
/// at once, any other opens with nothing forwarded under it.
pub open spec fn after_grant(capacity: nat) -> ConsumeCreditView {
    if capacity == 0 {
        waiting()
    } else {
        ConsumeCreditView { counter: 0, capacity: Some(capacity) }
    }
}

/// One more message was forwarded; the grant is used up when the count
/// reaches it, and the consumer waits again.
pub open spec fn after_forward(s: ConsumeCreditView) -> ConsumeCreditView {
    match s.capacity {
        Some(c) => if s.counter + 1 >= c {
            waiting()
        } else {
            ConsumeCreditView { counter: s.counter + 1, capacity: Some(c) }
        },
        None => s,
    }
}

/// The state after `k` forwarded messages.
pub open spec fn after_forwards(s: ConsumeCreditView, k: nat) -> ConsumeCreditView
    decreases k,
{
    if k == 0 {
        s
    } else {
        after_forward(after_forwards(s, (k - 1) as nat))
    }
}

impl ConsumeCredit {
    /// The consumer's state when it starts: waiting for a grant.
    pub fn new() -> (r: Self)
        ensures
            r@ == waiting(),
            r.wf(),
    {
        ConsumeCredit { counter: 0, capacity: None }
    }

    /// The count stays below an open grant.
    pub closed spec fn wf(&self) -> bool {
        match self.capacity {
            Some(c) => self.counter < c,
            None => self.counter == 0,
        }
    }

    /// What the consumer does next: receive while the grant has room, wait
    /// for a grant otherwise.
    pub fn next_step(&self) -> (r: ConsumeStep)
        requires
            self.wf(),
        ensures
            r is ReceiveMessage <==> self@.capacity is Some,
    {
        match self.capacity {
            Some(_) => ConsumeStep::ReceiveMessage,
            None => ConsumeStep::WaitForCapacity,
        }
    }

    /// Storage granted room for `capacity` messages.
    pub fn on_capacity(&mut self, capacity: usize)
        requires
            old(self).wf(),
            old(self)@.capacity is None,
        ensures
            final(self).wf(),
            final(self)@ == after_grant(capacity as nat),
    {
        if capacity == 0 {
            self.capacity = None;
        } else {
            self.capacity = Some(capacity);
        }
        self.counter = 0;
    }

    /// A message was received and forwarded under the open grant.
    pub fn on_message_forwarded(&mut self)
        requires
            old(self).wf(),
            old(self)@.capacity is Some,
        ensures
            final(self).wf(),
            final(self)@ == after_forward(old(self)@),
    {
        let c = self.capacity.unwrap();
        if self.counter + 1 >= c {
            self.counter = 0;
            self.capacity = None;
        } else {
            self.counter = self.counter + 1;
        }
    }
}

/// Under a grant of room for `n` messages the consumer forwards exactly `n`
/// messages: it keeps receiving after each of the first `n - 1` and waits for
/// the next grant after the `n`-th.
pub proof fn lemma_grant_forwards_exactly(n: nat)
    ensures
        forall|k: nat| k < n ==> (#[trigger] after_forwards(after_grant(n), k)).capacity is Some,
        after_forwards(after_grant(n), n) == waiting(),
{
    assert forall|k: nat| k <= n implies (#[trigger] after_forwards(after_grant(n), k)) == (if k
        == n {
        waiting()
    } else {
        ConsumeCreditView { counter: k, capacity: Some(n) }
    }) by {
        lemma_forwards_count(n, k);
    }
}

proof fn lemma_forwards_count(n: nat, k: nat)
    requires
        k <= n,
    ensures
        after_forwards(after_grant(n), k) == (if k == n {
            waiting()
        } else {
            ConsumeCreditView { counter: k, capacity: Some(n) }
        }),
    decreases k,
{
    if k > 0 {
        lemma_forwards_count(n, (k - 1) as nat);
    }
}

} // verus!
