//! The decisions of the throughput websocket: which time window to query
//! next, and when a silent client is dropped.
use crate::reporting::datetime::UtcDateTime;
use crate::reporting::models::ThroughputStats;
use vstd::prelude::*;

verus! {

/// The aggregation interval when the client names none: one day, in seconds.
pub fn default_aggr_interval() -> (r: u64)
    ensures
        r == 86400,
{
    60 * 60 * 24
}

/// How long a client may stay silent before it is dropped, in milliseconds:
/// a client must ping at least once every 10 seconds.
pub const WS_CLIENT_TIMEOUT_MILLIS: u64 = 10_000;

/// Whether a client that has not answered for `silent_millis` milliseconds
/// is dropped: when it has been silent longer than the timeout.
pub fn client_timed_out(silent_millis: u64) -> (r: bool)
    ensures
        r == (silent_millis > 10_000),
{
    silent_millis > WS_CLIENT_TIMEOUT_MILLIS
}

/// The query parameters of a throughput stream.
#[derive(Debug)]
pub struct ThroughputParams {
    /// Interval aggregation of the data in seconds.
    pub aggr_interval: u64,
    pub host: Option<String>,
    pub start_period: Option<UtcDateTime>,
    pub end_period: Option<UtcDateTime>,
}

/// The instant of an optional date-time.
pub open spec fn opt_instant(d: Option<UtcDateTime>) -> Option<(i64, u32)> {
    match d {
        Some(v) => Some(v@),
        None => None,
    }
}

/// Where the next query window starts: at the last data point sent, or at
/// the requested start when nothing was sent yet.
pub open spec fn window_start(
    last_fetched: Option<(i64, u32)>,
    start_period: Option<(i64, u32)>,
) -> Option<(i64, u32)> {
    match last_fetched {
        Some(t) => Some(t),
        None => start_period,
    }
}

/// The last data point sent after a query returned the points at `times`.
pub open spec fn after_fetch(last_fetched: Option<(i64, u32)>, times: Seq<(i64, u32)>) -> Option<
    (i64, u32),
> {
    if times.len() > 0 {
        Some(times.last())
    } else {
        last_fetched
    }
}

/// Once a query returned data points, the next window starts at the last of
/// them, whatever start the client asked for: the stream picks up where it
/// left off.
pub proof fn lemma_stream_resumes_at_last_point(
    last_fetched: Option<(i64, u32)>,
    times: Seq<(i64, u32)>,
    start_period: Option<(i64, u32)>,
)
    requires
        times.len() > 0,
    ensures
        window_start(after_fetch(last_fetched, times), start_period) == Some(times.last()),
{
}

/// A refresh that returns no data points changes nothing: the last data
/// point sent stays what it was, and the next window starts where it would
/// have started anyway.
pub proof fn lemma_empty_refresh_keeps_last_point(
    last_fetched: Option<(i64, u32)>,
    start_period: Option<(i64, u32)>,
)
    ensures
        after_fetch(last_fetched, Seq::empty()) == last_fetched,
        window_start(after_fetch(last_fetched, Seq::empty()), start_period) == window_start(
            last_fetched,
            start_period,
        ),
{
}

/// Once a data point has been sent, it is never forgotten: whatever later
/// refreshes return, some point stays recorded, and the next window starts
/// at a point that was sent, never again at the requested start. If the
/// refreshes returned nothing, it starts at the very point sent before.
pub proof fn lemma_sent_point_is_never_forgotten(
    last: (i64, u32),
    times: Seq<(i64, u32)>,
    start_period: Option<(i64, u32)>,
)
    ensures
        after_fetch(Some(last), times) is Some,
        window_start(after_fetch(Some(last), times), start_period) == (if times.len() > 0 {
            Some(times.last())
        } else {
            Some(last)
        }),
        window_start(after_fetch(Some(last), times), start_period) == window_start(
            after_fetch(Some(last), times),
            None,
        ),
{
}

/// Two refreshes in a row leave the stream where one refresh returning the
/// points of both, in order, would: recording is a matter of the last point
/// returned so far, however the points were split between refreshes.
pub proof fn lemma_refreshes_compose(
    last_fetched: Option<(i64, u32)>,
    first: Seq<(i64, u32)>,
    second: Seq<(i64, u32)>,
)
    ensures
        after_fetch(after_fetch(last_fetched, first), second) == after_fetch(
            last_fetched,
            first + second,
        ),
{
    if second.len() > 0 {
        assert((first + second).last() == second.last());
    } else {
        assert(first + second =~= first);
    }
}

/// What the stream has sent so far: the time of the last data point.
#[derive(Debug)]
pub struct ThroughputWsState {
    last_fetched: Option<UtcDateTime>,
}

impl ThroughputWsState {
    /// Nothing sent yet.
    pub fn new() -> (r: Self)
        ensures
            r.last_fetched() is None,
    {
        ThroughputWsState { last_fetched: None }
    }

    /// The instant of the last data point sent, if any.
    pub closed spec fn last_fetched(&self) -> Option<(i64, u32)> {
        opt_instant(self.last_fetched)
    }

    /// The window of the next query: from the last data point sent, or the
    /// requested start when nothing was sent yet; up to the requested end, or
    /// `now` when none was requested.
    pub fn fetch_window(&self, params: &ThroughputParams, now: &UtcDateTime) -> (r: (
        Option<UtcDateTime>,
        Option<UtcDateTime>,
    ))
        ensures
            opt_instant(r.0) == window_start(self.last_fetched(), opt_instant(params.start_period)),
            opt_instant(r.1) == (match params.end_period {
                Some(e) => Some(e@),
                None => Some(now@),
            }),
    {
        let start = match &self.last_fetched {
            Some(t) => Some(t.duplicate()),
            None => match &params.start_period {
                Some(s) => Some(s.duplicate()),
                None => None,
            },
        };
        let end = match &params.end_period {
            Some(e) => Some(e.duplicate()),
            None => Some(now.duplicate()),
        };
        (start, end)
    }

    /// Records what a query returned: the time of its last data point, when
    /// it returned any, becomes the last one sent.
    pub fn record_fetched(&mut self, stats: &Vec<ThroughputStats>)
        ensures
            final(self).last_fetched() == after_fetch(
                old(self).last_fetched(),
                stats@.map_values(|s: ThroughputStats| s.time()@),
            ),
            stats@.len() == 0 ==> final(self).last_fetched() == old(self).last_fetched(),
            stats@.len() > 0 ==> final(self).last_fetched() == Some(stats@.last().time()@),
    {
        let n = stats.len();
        if n > 0 {
            self.last_fetched = Some(stats[n - 1].get_time().duplicate());
        }
    }
}

} // verus!
