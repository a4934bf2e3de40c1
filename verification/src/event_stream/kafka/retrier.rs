//! The retrier: which topic a failed message goes to on each retry, and how
//! long a retry tier waits before it republishes a message.
use crate::decimal::{decimal, digits_value, lemma_decimal_digits, usize_to_decimal};
use crate::event_stream::kafka::headers::{
    KafkaHeaders,
    metadata_from_headers,
    metadata_headers,
    metadata_headers_parse,
};
use crate::event_stream::transport::RetrierExt;
use crate::messages::FlowMessageMetadata;
use vstd::arithmetic::power::pow;
use vstd::prelude::*;

verus! {

/// Topics and limits of the retry scheme: a failed message goes to
/// `topic_retry` followed by its retry number, up to `max_retries` times,
/// then once to `topic_dlq`, the dead letter queue; retried messages are
/// republished to `topic_original`.
#[derive(Debug, Clone)]
pub struct Retrier {
    topic_original: String,
    topic_retry: String,
    topic_dlq: String,
    max_retries: usize,
    brokers: String,
}

/// The mathematical value of a [`Retrier`].
pub struct RetrierView {
    pub topic_original: Seq<char>,
    pub topic_retry: Seq<char>,
    pub topic_dlq: Seq<char>,
    pub max_retries: usize,
    pub brokers: Seq<char>,
}

impl View for Retrier {
    type V = RetrierView;

    closed spec fn view(&self) -> RetrierView {
        RetrierView {
            topic_original: self.topic_original@,
            topic_retry: self.topic_retry@,
            topic_dlq: self.topic_dlq@,
            max_retries: self.max_retries,
            brokers: self.brokers@,
        }
    }
}

/// The topic for the `current_retry`-th retry: a retry topic while retries
/// are left, the dead letter queue right after the last one, nothing after
/// that.
pub open spec fn retry_topic(r: RetrierView, current_retry: usize) -> Option<Seq<char>> {
    if current_retry < r.max_retries + 1 {
        Some(r.topic_retry + decimal(current_retry as nat))
    } else if current_retry == r.max_retries + 1 {
        Some(r.topic_dlq)
    } else {
        None
    }
}

impl Retrier {
    pub fn new(
        topic_original: String,
        topic_retry: String,
        topic_dlq: String,
        max_retries: usize,
        brokers: String,
    ) -> (r: Self)
        ensures
            r@ == (RetrierView {
                topic_original: topic_original@,
                topic_retry: topic_retry@,
                topic_dlq: topic_dlq@,
                max_retries,
                brokers: brokers@,
            }),
    {
        Self { topic_original, topic_retry, topic_dlq, max_retries, brokers }
    }

    /// The topic that retried messages are republished to.
    pub fn topic_original(&self) -> (r: &str)
        ensures
            r@ == self@.topic_original,
    {
        self.topic_original.as_str()
    }
}

impl Default for Retrier {
    fn default() -> (r: Self)
        ensures
            r@ == (RetrierView {
                topic_original: "flows"@,
                topic_retry: "flows_retry_"@,
                topic_dlq: "flows_dead_letter_queue"@,
                max_retries: 2,
                brokers: "broker:9092"@,
            }),
    {
        Self {
            topic_original: "flows".to_owned(),
            topic_retry: "flows_retry_".to_owned(),
            topic_dlq: "flows_dead_letter_queue".to_owned(),
            max_retries: 2,
            brokers: "broker:9092".to_owned(),
        }
    }
}

impl RetrierExt for Retrier {
    open spec fn routes(&self) -> bool {
        self@.max_retries < usize::MAX
    }

    open spec fn topic_for_retry(&self, current_retry: usize) -> Option<Seq<char>> {
        retry_topic(self@, current_retry)
    }

    open spec fn brokers(&self) -> Seq<char> {
        self@.brokers
    }

    fn get_topic_based_on_retry(&self, current_retry: usize) -> (r: Option<String>) {
        let max_retries = self.max_retries + 1;
        if current_retry == max_retries {
            Some(self.topic_dlq.clone())
        } else if current_retry > max_retries {
            None
        } else {
            let mut topic = self.topic_retry.clone();
            let n = usize_to_decimal(current_retry);
            topic.append(n.as_str());
            Some(topic)
        }
    }

    fn get_brokers_retry(&self) -> (r: &str) {
        self.brokers.as_str()
    }
}

/// Each retry tier has a topic of its own: two different retry numbers that
/// both still have retries left are routed to different topics.
pub proof fn lemma_retry_topics_distinct(r: RetrierView, a: usize, b: usize)
    requires
        a != b,
        a < r.max_retries + 1,
        b < r.max_retries + 1,
    ensures
        retry_topic(r, a) != retry_topic(r, b),
{
    lemma_decimal_digits(a as nat);
    lemma_decimal_digits(b as nat);
    if retry_topic(r, a) == retry_topic(r, b) {
        let ta = r.topic_retry + decimal(a as nat);
        let tb = r.topic_retry + decimal(b as nat);
        assert(ta == tb);
        let n = r.topic_retry.len() as int;
        assert(ta.subrange(n, ta.len() as int) =~= decimal(a as nat));
        assert(tb.subrange(n, tb.len() as int) =~= decimal(b as nat));
        assert(digits_value(decimal(a as nat)) == digits_value(decimal(b as nat)));
    }
}

/// The waiting time of retry tier `retry` in milliseconds:
/// `base_millis * 10^retry`, taken as an `i64` as the retrier does.
pub fn retry_interval_millis(base_millis: u64, retry: usize) -> (r: i64)
    requires
        pow(10, retry as nat) <= u64::MAX,
        base_millis * pow(10, retry as nat) <= u64::MAX,
    ensures
        r == (base_millis * pow(10, retry as nat)) as i64,
{
    let mut p: u64 = 1;
    let mut i: usize = 0;
    proof {
        vstd::arithmetic::power::lemma_pow0(10);
    }
    while i < retry
        invariant
            i <= retry,
            p == pow(10, i as nat),
            pow(10, retry as nat) <= u64::MAX,
        decreases retry - i,
    {
        proof {
            vstd::arithmetic::power::lemma_pow1(10);
            vstd::arithmetic::power::lemma_pow_adds(10, i as nat, 1);
            vstd::arithmetic::power::lemma_pow_increases(10, (i + 1) as nat, retry as nat);
        }
        p = p * 10;
        i = i + 1;
    }
    (base_millis * p) as i64
}

/// Rounds `a / b` toward zero, as Rust's integer division does.
pub open spec fn div_toward_zero(a: int, b: int) -> int
    recommends
        b > 0,
{
    if a >= 0 {
        a / b
    } else {
        -((-a) / b)
    }
}

/// The whole minutes in `millis` milliseconds, rounded toward zero.
pub open spec fn whole_minutes(millis: int) -> int {
    div_toward_zero(div_toward_zero(millis, 1000), 60)
}

/// chrono's `Duration::milliseconds(millis).num_minutes()`: the whole minutes
/// of the duration, rounded toward zero (whole seconds first, then whole
/// minutes). `Duration::milliseconds` panics on `i64::MIN`, which the
/// precondition leaves out.
#[verifier::external_body]
fn chrono_whole_minutes(millis: i64) -> (r: i64)
    requires
        millis > i64::MIN,
    ensures
        r == whole_minutes(millis as int),
{
    chrono::Duration::milliseconds(millis).num_minutes()
}

/// How long, in seconds, retry tier with interval `retry_interval` (in
/// milliseconds) waits before it republishes a message stamped at
/// `event_millis` when the clock reads `now_millis`: the whole minutes left
/// of the interval, if any, times 60; 0 when the interval has passed.
pub fn retry_sleep_seconds(retry_interval: i64, now_millis: i64, event_millis: i64) -> (r: u64)
    requires
        i64::MIN < retry_interval - (now_millis - event_millis) <= i64::MAX,
        i64::MIN <= now_millis - event_millis <= i64::MAX,
    ensures
        r == if whole_minutes(retry_interval - (now_millis - event_millis)) > 0 {
            whole_minutes(retry_interval - (now_millis - event_millis)) * 60
        } else {
            0
        },
{
    let deadline = chrono_whole_minutes(retry_interval - (now_millis - event_millis));
    if deadline > 0 {
        assert(deadline <= i64::MAX / 60000 + 1) by {
            let ms = retry_interval - (now_millis - event_millis);
            assert(ms / 1000 <= i64::MAX / 1000);
        }
        deadline as u64 * 60
    } else {
        0
    }
}

/// What a retry tier does with a message it consumed: wait, publish it under
/// `headers` to `topic`, then store `offset`.
pub struct Republish {
    pub topic: String,
    pub headers: KafkaHeaders,
    pub sleep_seconds: u64,
    pub offset: i64,
}

impl Retrier {
    /// How a retry tier with interval `retry_interval` (in milliseconds)
    /// handles a message consumed at `offset` under `headers`, when the clock
    /// reads `now_millis`: a message without a timestamp is left alone; any
    /// other waits out what is left of the interval and goes back to the
    /// topic it came from, under headers rebuilt from its metadata.
    pub fn plan_republish(
        &self,
        headers: &KafkaHeaders,
        offset: i64,
        event_millis: Option<i64>,
        now_millis: i64,
        retry_interval: i64,
    ) -> (r: Option<Republish>)
        requires
            metadata_headers_parse(headers@),
            metadata_from_headers(headers@) is Ok,
            event_millis matches Some(x) ==> (i64::MIN <= now_millis - x <= i64::MAX && i64::MIN
                < retry_interval - (now_millis - x) <= i64::MAX),
        ensures
            event_millis is None ==> r is None,
            event_millis matches Some(x) ==> (r matches Some(p) && p.topic@ == self@.topic_original
                && p.headers@ == metadata_headers(metadata_from_headers(headers@)->Ok_0)
                && p.offset == offset && p.sleep_seconds == (if whole_minutes(
                retry_interval - (now_millis - x),
            ) > 0 {
                whole_minutes(retry_interval - (now_millis - x)) * 60
            } else {
                0
            })),
    {
        let metadata = FlowMessageMetadata::from_received_message(headers, offset);
        match event_millis {
            Some(x) => {
                let sleep_seconds = retry_sleep_seconds(retry_interval, now_millis, x);
                let out = metadata.to_headers();
                Some(
                    Republish {
                        topic: self.topic_original.clone(),
                        headers: out,
                        sleep_seconds,
                        offset,
                    },
                )
            },
            None => None,
        }
    }
}

} // verus!
