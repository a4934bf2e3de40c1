//! The offset guard of a topic. Each processed message's offset is handed to
//! the consumer's offset store as soon as the message is processed
//! (`stash_processed_offset`). The guard also knows the stricter, in-order
//! way: keep processed offsets pending and store only as far as every offset
//! below has been processed (`push_processed_offset`,
//! `advance_stored_offset`), starting from the broker's committed offset
//! (`take_committed`).
use crate::event_stream::kafka::offset::KafkaOffset;
use vstd::multiset::Multiset;
use vstd::prelude::*;

verus! {

broadcast use {vstd::multiset::group_multiset_axioms, vstd::seq_lib::group_to_multiset_ensures};

/// `x` is a smallest element of `m`.
pub open spec fn is_min(m: Multiset<int>, x: int) -> bool {
    m.contains(x) && forall|y: int| m.contains(y) ==> x <= y
}

/// The smallest element of a non-empty multiset.
pub open spec fn min_of(m: Multiset<int>) -> int {
    choose|x: int| is_min(m, x)
}

pub proof fn lemma_min_exists(m: Multiset<int>)
    requires
        m.len() > 0,
    ensures
        is_min(m, min_of(m)),
    decreases m.len(),
{
    let c = m.choose();
    assert(m.contains(c));
    let rest = m.remove(c);
    if rest.len() == 0 {
        assert forall|y: int| m.contains(y) implies c <= y by {
            if y != c {
                assert(rest.count(y) == m.count(y));
            }
        }
        assert(is_min(m, c));
    } else {
        lemma_min_exists(rest);
        let r = min_of(rest);
        let x = if c <= r {
            c
        } else {
            r
        };
        assert forall|y: int| m.contains(y) implies x <= y by {
            if y != c {
                assert(rest.count(y) == m.count(y));
                assert(rest.contains(y));
            }
        }
        assert(m.contains(r));
        assert(is_min(m, x));
    }
}

/// Storing processed offsets: while the smallest pending offset is at most one
/// past the last stored offset, it becomes the last stored offset and leaves
/// the pending ones. The result is what is still pending and the offset that
/// is stored last.
pub open spec fn advance(pending: Multiset<int>, last: int) -> (Multiset<int>, int)
    decreases pending.len(),
{
    if pending.len() == 0 {
        (pending, last)
    } else {
        let m = min_of(pending);
        if m <= last + 1 {
            proof {
                lemma_min_exists(pending);
            }
            advance(pending.remove(m), m)
        } else {
            (pending, last)
        }
    }
}

/// One element of a list of committed offsets: a partition of a topic and
/// the offset committed for it.
#[derive(Debug, Clone)]
pub struct CommittedPartition {
    pub topic: String,
    pub partition: i32,
    pub offset: KafkaOffset,
}

/// The offset of the first element of `entries` that belongs to `topic`, if
/// there is one: the first of the topic's elements, in the list's order.
pub open spec fn first_committed(entries: Seq<CommittedPartition>, topic: Seq<char>) -> Option<
    KafkaOffset,
>
    decreases entries.len(),
{
    if entries.len() == 0 {
        None
    } else if entries[0].topic@ == topic {
        Some(entries[0].offset)
    } else {
        first_committed(entries.drop_first(), topic)
    }
}

/// The offset a guard starts from when the broker reports `committed` for
/// its topic: a plain offset as it is, anything else (only `Invalid` is
/// taken) as 0.
pub open spec fn committed_start(committed: KafkaOffset) -> int {
    match committed {
        KafkaOffset::Offset(o) => o as int,
        _ => 0,
    }
}

/// The offset of the first element of `entries` for `topic`, if any.
pub fn first_committed_for_topic(entries: &Vec<CommittedPartition>, topic: &String) -> (r: Option<
    KafkaOffset,
>)
    ensures
        r == first_committed(entries@, topic@),
{
    let mut i: usize = 0;
    assert(entries@.subrange(0, entries@.len() as int) =~= entries@);
    while i < entries.len()
        invariant
            0 <= i <= entries.len(),
            first_committed(entries@, topic@) == first_committed(
                entries@.subrange(i as int, entries@.len() as int),
                topic@,
            ),
        decreases entries.len() - i,
    {
        let ghost rest = entries@.subrange(i as int, entries@.len() as int);
        assert(rest.drop_first() =~= entries@.subrange(i + 1, entries@.len() as int));
        assert(rest[0] == entries@[i as int]);
        if entries[i].topic == *topic {
            return Some(entries[i].offset);
        }
        i = i + 1;
    }
    assert(entries@.subrange(i as int, entries@.len() as int).len() == 0);
    None
}

/// The offset of a processed message, for the consumer's offset store.
#[derive(Debug, Clone)]
pub struct OffsetToStore {
    pub topic: String,
    pub partition: i32,
    pub offset: i64,
}

/// The mathematical value of an [`OffsetToStore`].
pub struct OffsetToStoreView {
    pub topic: Seq<char>,
    pub partition: i32,
    pub offset: i64,
}

impl View for OffsetToStore {
    type V = OffsetToStoreView;

    open spec fn view(&self) -> OffsetToStoreView {
        OffsetToStoreView { topic: self.topic@, partition: self.partition, offset: self.offset }
    }
}

/// The mathematical value of a [`ConsumerOffsetGuard`].
pub struct ConsumerOffsetGuardView {
    pub pending: Multiset<int>,
    pub last_stored_offset: int,
    pub topic: Seq<char>,
}

/// The offset guard of a topic: its name, the offsets kept pending for
/// in-order storing, and the last offset that may be stored that way.
pub struct ConsumerOffsetGuard {
    processed_offsets: Vec<i64>,
    last_stored_offset: i64,
    pub topic: String,
}

impl View for ConsumerOffsetGuard {
    type V = ConsumerOffsetGuardView;

    closed spec fn view(&self) -> ConsumerOffsetGuardView {
        ConsumerOffsetGuardView {
            pending: self.processed_offsets@.map_values(|x: i64| x as int).to_multiset(),
            last_stored_offset: self.last_stored_offset as int,
            topic: self.topic@,
        }
    }
}

impl ConsumerOffsetGuard {
    /// A guard for `topic` with nothing pending and 0 as the last stored
    /// offset.
    pub fn new(topic: &str) -> (r: Self)
        ensures
            r@.pending == Multiset::<int>::empty(),
            r@.last_stored_offset == 0,
            r@.topic == topic@,
    {
        let r = ConsumerOffsetGuard {
            processed_offsets: Vec::new(),
            last_stored_offset: 0,
            topic: topic.to_owned(),
        };
        assert(r.processed_offsets@.map_values(|x: i64| x as int) =~= Seq::<int>::empty());
        r
    }

    /// The last offset that may be stored.
    pub fn last_stored_offset(&self) -> (r: i64)
        ensures
            r as int == self@.last_stored_offset,
    {
        self.last_stored_offset
    }

    /// Hands a processed message over for storing: the offset store of the
    /// consumer gets the message's `offset` in `partition` of the guard's
    /// topic at once, and the consumer's automatic commit takes it from
    /// there. The guard itself does not change.
    pub fn stash_processed_offset(&self, offset: i64, partition: i32) -> (r: OffsetToStore)
        ensures
            r@ == (OffsetToStoreView { topic: self@.topic, partition, offset }),
    {
        OffsetToStore { topic: self.topic.clone(), partition, offset }
    }

    /// Keeps `offset` pending until `advance_stored_offset` reaches it in
    /// order: the stricter way of storing, where no offset is stored before
    /// every offset below it has been processed.
    pub fn push_processed_offset(&mut self, offset: i64)
        ensures
            final(self)@ == (ConsumerOffsetGuardView {
                pending: old(self)@.pending.insert(offset as int),
                ..old(self)@
            }),
    {
        let ghost before = self.processed_offsets@;
        self.processed_offsets.push(offset);
        assert(self.processed_offsets@.map_values(|x: i64| x as int) =~= before.map_values(
            |x: i64| x as int,
        ).push(offset as int));
    }

    /// Whether the smallest pending offset `peek`, if any, may become the
    /// last stored offset: it is at most one past `last_stored_offset`.
    fn peek_heap(&self, peek: Option<i64>, last_stored_offset: i64) -> (r: bool)
        ensures
            r == (peek matches Some(x) && x as int <= last_stored_offset as int + 1),
    {
        match peek {
            Some(x) => (x as i128) <= (last_stored_offset as i128) + 1,
            None => false,
        }
    }

    /// The position of a smallest pending offset, if any.
    fn min_position(&self) -> (r: Option<usize>)
        ensures
            r is None <==> self@.pending.len() == 0,
            r matches Some(i) ==> i < self.processed_offsets@.len() && is_min(
                self@.pending,
                self.processed_offsets@[i as int] as int,
            ),
    {
        let ghost s = self.processed_offsets@.map_values(|x: i64| x as int);
        let n = self.processed_offsets.len();
        if n == 0 {
            return None;
        }
        let mut best: usize = 0;
        let mut i: usize = 1;
        while i < n
            invariant
                0 <= best < i <= n,
                n == self.processed_offsets@.len(),
                s == self.processed_offsets@.map_values(|x: i64| x as int),
                forall|k: int| 0 <= k < i ==> s[best as int] <= #[trigger] s[k],
            decreases n - i,
        {
            if self.processed_offsets[i] < self.processed_offsets[best] {
                best = i;
            }
            i = i + 1;
        }
        proof {
            assert(s.to_multiset().contains(s[best as int]));
            assert forall|y: int| s.to_multiset().contains(y) implies s[best as int] <= y by {
                let k = choose|k: int| 0 <= k < s.len() && s[k] == y;
            }
        }
        Some(best)
    }

    /// Moves the last stored offset forward over the processed offsets that
    /// continue it, as the guard does before each commit, and returns the
    /// offset to commit.
    pub fn advance_stored_offset(&mut self) -> (r: i64)
        ensures
            (final(self)@.pending, final(self)@.last_stored_offset) == advance(
                old(self)@.pending,
                old(self)@.last_stored_offset,
            ),
            final(self)@.topic == old(self)@.topic,
            r as int == final(self)@.last_stored_offset,
    {
        loop
            invariant
                advance(self@.pending, self@.last_stored_offset) == advance(
                    old(self)@.pending,
                    old(self)@.last_stored_offset,
                ),
                self@.topic == old(self)@.topic,
            ensures
                (self@.pending, self@.last_stored_offset) == advance(
                    old(self)@.pending,
                    old(self)@.last_stored_offset,
                ),
                self@.topic == old(self)@.topic,
            decreases self.processed_offsets@.len(),
        {
            let pos = self.min_position();
            let peek = match pos {
                Some(i) => Some(self.processed_offsets[i]),
                None => None,
            };
            if !self.peek_heap(peek, self.last_stored_offset) {
                proof {
                    if self@.pending.len() > 0 {
                        lemma_min_exists(self@.pending);
                    }
                }
                break ;
            }
            let i = pos.unwrap();
            let ghost before = self@;
            let ghost s = self.processed_offsets@;
            proof {
                lemma_min_exists(before.pending);
            }
            let x = self.processed_offsets.remove(i);
            self.last_stored_offset = x;
            proof {
                assert(min_of(before.pending) == x as int);
                assert(s.remove(i as int).map_values(|x: i64| x as int) =~= s.map_values(
                    |x: i64| x as int,
                ).remove(i as int));
                assert(self@.pending == before.pending.remove(x as int));
            }
        }
        self.last_stored_offset
    }

    /// Takes the offset that the broker reports as committed as the last
    /// stored offset: a plain offset as it is, `Invalid` as 0.
    pub fn set_last_stored_from_committed(&mut self, fetched: KafkaOffset)
        requires
            fetched is Offset || fetched is Invalid,
        ensures
            final(self)@ == (ConsumerOffsetGuardView {
                last_stored_offset: match fetched {
                    KafkaOffset::Offset(o) => o as int,
                    _ => 0,
                },
                ..old(self)@
            }),
    {
        self.last_stored_offset = match fetched {
            KafkaOffset::Offset(o) => o,
            _ => 0,
        };
    }

    /// One look at the offsets the broker reports as committed, while the
    /// guard waits for its starting point. When the lookup came back
    /// (`Some`) and lists the guard's topic, the first offset listed for it
    /// becomes the last stored offset and the guard is ready; when the lookup
    /// failed (`None`) or lists no partition of the topic, nothing changes and
    /// the guard keeps waiting.
    pub fn take_committed(&mut self, lookup: Option<&Vec<CommittedPartition>>) -> (ready: bool)
        requires
            lookup matches Some(entries) ==> (first_committed(entries@, old(self)@.topic) matches Some(
                o,
            ) ==> (o is Offset || o is Invalid)),
        ensures
            ready == (lookup matches Some(entries) && first_committed(
                entries@,
                old(self)@.topic,
            ) is Some),
            ready ==> final(self)@ == (ConsumerOffsetGuardView {
                last_stored_offset: committed_start(
                    first_committed(lookup->0@, old(self)@.topic)->0,
                ),
                ..old(self)@
            }),
            !ready ==> final(self)@ == old(self)@,
    {
        match lookup {
            None => false,
            Some(entries) => {
                match first_committed_for_topic(entries, &self.topic) {
                    None => false,
                    Some(o) => {
                        self.set_last_stored_from_committed(o);
                        true
                    },
                }
            },
        }
    }
}

/// After storing, every offset still pending lies more than one past the
/// stored offset: storing goes as far as the processed offsets allow.
pub proof fn lemma_advance_maximal(pending: Multiset<int>, last: int)
    ensures
        forall|o: int|
            advance(pending, last).0.contains(o) ==> o > advance(pending, last).1 + 1,
    decreases pending.len(),
{
    if pending.len() > 0 {
        lemma_min_exists(pending);
        let m = min_of(pending);
        if m <= last + 1 {
            lemma_advance_maximal(pending.remove(m), m);
            assert(advance(pending, last) == advance(pending.remove(m), m));
        } else {
            assert(advance(pending, last) == (pending, last));
        }
    }
}

/// Storing only takes offsets out of those pending: what is still pending
/// and what was stored make up what was pending before.
pub proof fn lemma_advance_subset(pending: Multiset<int>, last: int)
    ensures
        advance(pending, last).0.subset_of(pending),
    decreases pending.len(),
{
    if pending.len() > 0 {
        lemma_min_exists(pending);
        let m = min_of(pending);
        if m <= last + 1 {
            lemma_advance_subset(pending.remove(m), m);
        }
    }
}

/// The stored offset never skips a message that was not processed: every
/// offset between the last stored offset and the new one was pending.
pub proof fn lemma_advance_skips_no_gap(pending: Multiset<int>, last: int)
    ensures
        forall|o: int| last < o <= advance(pending, last).1 ==> pending.contains(o),
    decreases pending.len(),
{
    if pending.len() > 0 {
        lemma_min_exists(pending);
        let m = min_of(pending);
        if m <= last + 1 {
            let rest = pending.remove(m);
            lemma_advance_skips_no_gap(rest, m);
            assert forall|o: int| last < o <= advance(pending, last).1 implies pending.contains(
                o,
            ) by {
                if o > m {
                    assert(rest.contains(o));
                }
            }
        }
    }
}

/// When no pending offset is behind the last stored one, the stored offset
/// only moves forward.
pub proof fn lemma_advance_monotone(pending: Multiset<int>, last: int)
    requires
        forall|o: int| pending.contains(o) ==> o >= last,
    ensures
        advance(pending, last).1 >= last,
    decreases pending.len(),
{
    if pending.len() > 0 {
        lemma_min_exists(pending);
        let m = min_of(pending);
        if m <= last + 1 {
            let rest = pending.remove(m);
            assert forall|o: int| rest.contains(o) implies o >= m by {
                assert(pending.contains(o));
            }
            lemma_advance_monotone(rest, m);
        }
    }
}

} // verus!
