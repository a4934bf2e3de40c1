//! The SQL that the reporting service sends to ClickHouse: the `WHERE` clause
//! built from optional filters, and the three statistics queries.
use crate::decimal::{decimal, u64_to_decimal};
use crate::reporting::datetime::UtcDateTime;
use vstd::prelude::*;
use vstd::string::*;

verus! {

/// The items of `cs` with `sep` between each two.
pub open spec fn join_with(cs: Seq<Seq<char>>, sep: Seq<char>) -> Seq<char>
    decreases cs.len(),
{
    if cs.len() == 0 {
        seq![]
    } else if cs.len() == 1 {
        cs[0]
    } else {
        join_with(cs.drop_last(), sep) + sep + cs.last()
    }
}

/// The clause that starts with `start` and joins the conditions with `AND`,
/// preceded by a space; nothing when there are no conditions.
pub open spec fn condition_clause(start: Seq<char>, conditions: Seq<Seq<char>>) -> Seq<char> {
    if conditions.len() == 0 {
        seq![]
    } else {
        " "@ + start + " "@ + join_with(conditions, " AND "@)
    }
}

/// Conditions joined with `AND` into a `WHERE` clause.
pub struct QueryCondition {
    start: String,
    conditions: Vec<String>,
}

/// The mathematical value of a [`QueryCondition`].
pub struct QueryConditionView {
    pub start: Seq<char>,
    pub conditions: Seq<Seq<char>>,
}

impl View for QueryCondition {
    type V = QueryConditionView;

    closed spec fn view(&self) -> QueryConditionView {
        QueryConditionView {
            start: self.start@,
            conditions: self.conditions@.map_values(|c: String| c@),
        }
    }
}

impl QueryCondition {
    /// A `WHERE` clause without conditions yet.
    pub fn new() -> (r: Self)
        ensures
            r@ == (QueryConditionView { start: "WHERE"@, conditions: Seq::empty() }),
    {
        let r = Self { start: String::from_str("WHERE"), conditions: Vec::new() };
        assert(r@.conditions =~= Seq::<Seq<char>>::empty());
        r
    }

    /// Adds a condition, if there is one; conditions keep the order in which
    /// they were added.
    pub fn condition(self, condition: Option<String>) -> (r: Self)
        ensures
            r@ == (match condition {
                Some(c) => QueryConditionView {
                    conditions: self@.conditions.push(c@),
                    ..self@
                },
                None => self@,
            }),
    {
        let mut s = self;
        let ghost before = s.conditions@;
        if let Some(c) = condition {
            s.conditions.push(c);
            proof {
                assert(s.conditions@.map_values(|c: String| c@) =~= before.map_values(
                    |c: String| c@,
                ).push(c@));
            }
        }
        s
    }

    /// Whether there is any condition.
    pub fn is_ready(&self) -> (r: bool)
        ensures
            r == (self@.conditions.len() > 0),
    {
        self.conditions.len() > 0
    }

    /// The clause: a space, `WHERE`, a space and the conditions joined with
    /// ` AND `; nothing when there are no conditions.
    pub fn prepare(self) -> (r: String)
        ensures
            r@ == condition_clause(self@.start, self@.conditions),
    {
        let ghost cs = self@.conditions;
        let n = self.conditions.len();
        if n == 0 {
            return String::new();
        }
        let mut out = String::from_str(" ");
        out.append(self.start.as_str());
        out.append(" ");
        let ghost prefix = out@;
        let mut i: usize = 0;
        while i < n
            invariant
                0 <= i <= n,
                n == self.conditions@.len(),
                cs == self.conditions@.map_values(|c: String| c@),
                out@ == prefix + join_with(cs.take(i as int), " AND "@),
            decreases n - i,
        {
            if i > 0 {
                out.append(" AND ");
            }
            out.append(self.conditions[i].as_str());
            proof {
                assert(cs.take(i + 1).drop_last() =~= cs.take(i as int));
                if i == 0 {
                    assert(cs.take(1) =~= seq![cs[0]]);
                    assert(cs.take(0) =~= Seq::<Seq<char>>::empty());
                }
            }
            i = i + 1;
        }
        assert(cs.take(n as int) =~= cs);
        out
    }
}

/// Builds `prefix`, `value` and `suffix` into one text.
fn enclose(prefix: &str, value: &str, suffix: &str) -> (r: String)
    ensures
        r@ == prefix@ + value@ + suffix@,
{
    let mut s = String::from_str(prefix);
    s.append(value);
    s.append(suffix);
    s
}

/// The condition that selects one host.
pub open spec fn host_condition_text(host: Seq<char>) -> Seq<char> {
    "host = '"@ + host + "'"@
}

/// The condition on the host, if one is given.
pub fn host_condition(host: Option<&str>) -> (r: Option<String>)
    ensures
        r is Some <==> host is Some,
        r matches Some(c) ==> c@ == host_condition_text(host->0@),
{
    match host {
        Some(v) => Some(enclose("host = '", v, "'")),
        None => None,
    }
}

/// The condition that keeps records from `start` on.
pub open spec fn start_condition_text(start: Seq<char>) -> Seq<char> {
    "timestamp >= parseDateTimeBestEffort('"@ + start + "')"@
}

/// The condition on the earliest record time, if one is given.
pub fn start_condition(start: Option<&UtcDateTime>) -> (r: Option<String>)
    ensures
        r is Some <==> start is Some,
        r matches Some(c) ==> c@ == start_condition_text(start->0.text()),
{
    match start {
        Some(v) => {
            let t = v.to_display();
            Some(enclose("timestamp >= parseDateTimeBestEffort('", t.as_str(), "')"))
        },
        None => None,
    }
}

/// The condition that keeps records before `end`.
pub open spec fn end_condition_text(end: Seq<char>) -> Seq<char> {
    "timestamp < parseDateTimeBestEffort('"@ + end + "')"@
}

/// The condition on the latest record time, if one is given.
pub fn end_condition(end: Option<&UtcDateTime>) -> (r: Option<String>)
    ensures
        r is Some <==> end is Some,
        r matches Some(c) ==> c@ == end_condition_text(end->0.text()),
{
    match end {
        Some(v) => {
            let t = v.to_display();
            Some(enclose("timestamp < parseDateTimeBestEffort('", t.as_str(), "')"))
        },
        None => None,
    }
}

/// The condition that keeps records before the start of the interval of
/// `interval_secs` seconds in which `end` falls.
pub open spec fn end_interval_condition_text(end: Seq<char>, interval_secs: u64) -> Seq<char> {
    "timestamp < toStartOfInterval(parseDateTimeBestEffort('"@ + end + "'), interval "@ + decimal(
        interval_secs as nat,
    ) + " second)"@
}

/// The condition on the latest record time, cut to whole intervals, if one
/// is given.
pub fn end_interval_condition(end: Option<&UtcDateTime>, interval_secs: u64) -> (r: Option<String>)
    ensures
        r is Some <==> end is Some,
        r matches Some(c) ==> c@ == end_interval_condition_text(end->0.text(), interval_secs),
{
    match end {
        Some(v) => {
            let t = v.to_display();
            let mut s = enclose("timestamp < toStartOfInterval(parseDateTimeBestEffort('", t.as_str(), "'), interval ");
            let secs = u64_to_decimal(interval_secs);
            s.append(secs.as_str());
            s.append(" second)");
            Some(s)
        },
        None => None,
    }
}

/// The optional items that are present, in order.
pub open spec fn present(items: Seq<Option<Seq<char>>>) -> Seq<Seq<char>>
    decreases items.len(),
{
    if items.len() == 0 {
        seq![]
    } else {
        match items.last() {
            Some(c) => present(items.drop_last()).push(c),
            None => present(items.drop_last()),
        }
    }
}

/// The host condition, if a host is given.
pub open spec fn host_item(host: Option<Seq<char>>) -> Option<Seq<char>> {
    match host {
        Some(h) => Some(host_condition_text(h)),
        None => None,
    }
}

/// The start-time condition, if a start time is given.
pub open spec fn start_item(start: Option<Seq<char>>) -> Option<Seq<char>> {
    match start {
        Some(d) => Some(start_condition_text(d)),
        None => None,
    }
}

/// The end-time condition, if an end time is given.
pub open spec fn end_item(end: Option<Seq<char>>) -> Option<Seq<char>> {
    match end {
        Some(d) => Some(end_condition_text(d)),
        None => None,
    }
}

/// The end-time condition cut to whole intervals, if an end time is given.
pub open spec fn end_interval_item(end: Option<Seq<char>>, interval_secs: u64) -> Option<Seq<char>> {
    match end {
        Some(d) => Some(end_interval_condition_text(d, interval_secs)),
        None => None,
    }
}

/// The text of an optional condition.
pub open spec fn opt_view(c: Option<String>) -> Option<Seq<char>> {
    match c {
        Some(s) => Some(s@),
        None => None,
    }
}

/// The `WHERE` clause of the given optional conditions, in order.
fn where_clause(c1: Option<String>, c2: Option<String>, c3: Option<String>) -> (r: String)
    ensures
        r@ == condition_clause("WHERE"@, present(seq![opt_view(c1), opt_view(c2), opt_view(c3)])),
{
    let ghost v1 = opt_view(c1);
    let ghost v2 = opt_view(c2);
    let ghost v3 = opt_view(c3);
    let q0 = QueryCondition::new();
    let q1 = q0.condition(c1);
    proof {
        assert(seq![v1].drop_last() =~= Seq::<Option<Seq<char>>>::empty());
        assert(present(Seq::<Option<Seq<char>>>::empty()) =~= Seq::<Seq<char>>::empty());
        assert(q1@.conditions =~= present(seq![v1]));
    }
    let q2 = q1.condition(c2);
    proof {
        assert(seq![v1, v2].drop_last() =~= seq![v1]);
        assert(q2@.conditions =~= present(seq![v1, v2]));
    }
    let q3 = q2.condition(c3);
    proof {
        assert(seq![v1, v2, v3].drop_last() =~= seq![v1, v2]);
        assert(q3@.conditions =~= present(seq![v1, v2, v3]));
    }
    q3.prepare()
}

/// The query for flow details: records of the host, if one is given, from
/// the start time on and before the end time, where those are given; at most
/// 1000 records.
pub open spec fn flows_detail_stats_query_text(
    host: Option<Seq<char>>,
    start: Option<Seq<char>>,
    end: Option<Seq<char>>,
) -> Seq<char> {
    "select * from messages "@ + condition_clause(
        "WHERE"@,
        present(
            seq![
                host_item(host),
                start_item(start),
                end_item(end),
            ],
        ),
    ) + " limit 1000"@
}

/// The text of an optional date-time.
pub open spec fn opt_text(d: Option<&UtcDateTime>) -> Option<Seq<char>> {
    match d {
        Some(v) => Some(v.text()),
        None => None,
    }
}

/// The text of an optional host.
pub open spec fn opt_str(h: Option<&str>) -> Option<Seq<char>> {
    match h {
        Some(v) => Some(v@),
        None => None,
    }
}

/// The query for flow details (`fetch_flows_detail_stats`).
pub fn flows_detail_stats_query(
    host: Option<&str>,
    start_date: Option<&UtcDateTime>,
    end_date: Option<&UtcDateTime>,
) -> (r: String)
    ensures
        r@ == flows_detail_stats_query_text(opt_str(host), opt_text(start_date), opt_text(end_date)),
        host matches Some(h) ==> contains_text(r@, " WHERE "@ + host_condition_text(h@)),
{
    proof {
        if let Some(h) = host {
            lemma_statistics_queries_filter_by_host(h@, 0, opt_text(start_date), opt_text(end_date));
        }
    }
    let c1 = host_condition(host);
    let c2 = start_condition(start_date);
    let c3 = end_condition(end_date);
    assert(opt_view(c1) == host_item(opt_str(host)));
    assert(opt_view(c2) == start_item(opt_text(start_date)));
    assert(opt_view(c3) == end_item(opt_text(end_date)));
    let condition = where_clause(c1, c2, c3);
    let r = enclose("select * from messages ", condition.as_str(), " limit 1000");
    r
}

/// The query for throughput: flows per second in intervals of
/// `interval_secs` seconds, filtered by host and time.
pub open spec fn throughput_stats_query_text(
    host: Option<Seq<char>>,
    interval_secs: u64,
    start: Option<Seq<char>>,
    end: Option<Seq<char>>,
) -> Seq<char> {
    "SELECT toUInt64(count()/"@ + decimal(interval_secs as nat)
        + ") flows_per_second, tumbleEnd(timestamp, toIntervalSecond('"@ + decimal(
        interval_secs as nat,
    ) + "')) time FROM messages "@ + condition_clause(
        "WHERE"@,
        present(
            seq![
                host_item(host),
                start_item(start),
                end_interval_item(end, interval_secs),
            ],
        ),
    ) + " GROUP BY time ORDER BY time ASC"@
}

/// The query for throughput (`fetch_throughput_stats`).
pub fn throughput_stats_query(
    host: Option<&str>,
    interval_secs: u64,
    start_date: Option<&UtcDateTime>,
    end_date: Option<&UtcDateTime>,
) -> (r: String)
    ensures
        r@ == throughput_stats_query_text(
            opt_str(host),
            interval_secs,
            opt_text(start_date),
            opt_text(end_date),
        ),
        host matches Some(h) ==> contains_text(r@, " WHERE "@ + host_condition_text(h@)),
{
    proof {
        if let Some(h) = host {
            lemma_statistics_queries_filter_by_host(
                h@,
                interval_secs,
                opt_text(start_date),
                opt_text(end_date),
            );
        }
    }
    let c1 = host_condition(host);
    let c2 = start_condition(start_date);
    let c3 = end_interval_condition(end_date, interval_secs);
    assert(opt_view(c1) == host_item(opt_str(host)));
    assert(opt_view(c2) == start_item(opt_text(start_date)));
    assert(opt_view(c3) == end_interval_item(opt_text(end_date), interval_secs));
    let condition = where_clause(c1, c2, c3);
    let secs = u64_to_decimal(interval_secs);
    let mut q = enclose("SELECT toUInt64(count()/", secs.as_str(), ") flows_per_second, tumbleEnd(timestamp, toIntervalSecond('");
    q.append(secs.as_str());
    q.append("')) time FROM messages ");
    q.append(condition.as_str());
    q.append(" GROUP BY time ORDER BY time ASC");
    q
}

/// `part` occurs in `text`.
pub open spec fn contains_text(text: Seq<char>, part: Seq<char>) -> bool {
    exists|i: int|
        0 <= i && i + part.len() <= text.len() && #[trigger] text.subrange(i, i + part.len()) == part
}

/// Conditions joined with a separator start with the first condition.
proof fn lemma_join_starts_with_first(cs: Seq<Seq<char>>, sep: Seq<char>)
    requires
        cs.len() > 0,
    ensures
        join_with(cs, sep).len() >= cs[0].len(),
        join_with(cs, sep).subrange(0, cs[0].len() as int) == cs[0],
    decreases cs.len(),
{
    if cs.len() > 1 {
        lemma_join_starts_with_first(cs.drop_last(), sep);
        let j = join_with(cs.drop_last(), sep);
        assert((j + sep + cs.last()).subrange(0, cs[0].len() as int) =~= j.subrange(
            0,
            cs[0].len() as int,
        ));
    }
}

/// A `WHERE` clause whose first filter is present begins with that filter.
proof fn lemma_where_clause_starts_with(
    first: Seq<char>,
    second: Option<Seq<char>>,
    third: Option<Seq<char>>,
)
    ensures
        condition_clause("WHERE"@, present(seq![Some(first), second, third])).len() >= (" WHERE "@
            + first).len(),
        condition_clause("WHERE"@, present(seq![Some(first), second, third])).subrange(
            0,
            (" WHERE "@ + first).len() as int,
        ) == " WHERE "@ + first,
{
    let items = seq![Some(first), second, third];
    assert(items.drop_last() =~= seq![Some(first), second]);
    assert(seq![Some(first), second].drop_last() =~= seq![Some(first)]);
    assert(seq![Some(first)].drop_last() =~= Seq::<Option<Seq<char>>>::empty());
    assert(present(Seq::<Option<Seq<char>>>::empty()) =~= Seq::<Seq<char>>::empty());
    assert(seq![Some(first)].last() == Some(first));
    assert(present(seq![Some(first)]) =~= seq![first]);
    let two = present(seq![Some(first), second]);
    assert(two.len() >= 1 && two[0] == first);
    let cs = present(items);
    assert(cs.len() >= 1 && cs[0] == first);
    lemma_join_starts_with_first(cs, " AND "@);
    reveal_strlit(" ");
    reveal_strlit("WHERE");
    reveal_strlit(" WHERE ");
    let j = join_with(cs, " AND "@);
    let clause = " "@ + "WHERE"@ + " "@ + j;
    assert(clause.subrange(0, (" WHERE "@ + first).len() as int) =~= " WHERE "@ + j.subrange(
        0,
        first.len() as int,
    ));
}

/// A text made of `prefix`, a `WHERE` clause whose first filter is present,
/// and `suffix` contains that filter right after `WHERE`.
proof fn lemma_query_contains_first_filter(
    prefix: Seq<char>,
    first: Seq<char>,
    second: Option<Seq<char>>,
    third: Option<Seq<char>>,
    suffix: Seq<char>,
)
    ensures
        contains_text(
            prefix + condition_clause("WHERE"@, present(seq![Some(first), second, third])) + suffix,
            " WHERE "@ + first,
        ),
{
    lemma_where_clause_starts_with(first, second, third);
    let clause = condition_clause("WHERE"@, present(seq![Some(first), second, third]));
    let text = prefix + clause + suffix;
    let part = " WHERE "@ + first;
    let i = prefix.len() as int;
    assert(text.subrange(i, i + part.len()) =~= clause.subrange(0, part.len() as int));
}

/// Every statistics query filters by the host it is asked about: when a
/// host is given, the query's `WHERE` clause begins with `host = '<host>'`.
pub proof fn lemma_statistics_queries_filter_by_host(
    host: Seq<char>,
    interval_secs: u64,
    start: Option<Seq<char>>,
    end: Option<Seq<char>>,
)
    ensures
        contains_text(
            throughput_stats_query_text(Some(host), interval_secs, start, end),
            " WHERE "@ + host_condition_text(host),
        ),
        contains_text(
            grouped_count_malicious_query_text(Some(host), start, end),
            " WHERE "@ + host_condition_text(host),
        ),
        contains_text(
            flows_detail_stats_query_text(Some(host), start, end),
            " WHERE "@ + host_condition_text(host),
        ),
{
    lemma_query_contains_first_filter(
        "SELECT toUInt64(count()/"@ + decimal(interval_secs as nat)
            + ") flows_per_second, tumbleEnd(timestamp, toIntervalSecond('"@ + decimal(
            interval_secs as nat,
        ) + "')) time FROM messages "@,
        host_condition_text(host),
        start_item(start),
        end_interval_item(end, interval_secs),
        " GROUP BY time ORDER BY time ASC"@,
    );
    lemma_query_contains_first_filter(
        "WITH countMap(map(malicious, 1)) AS map SELECT map[true] as n_malicious, map[false] as n_non_malicious FROM messages"@,
        host_condition_text(host),
        start_item(start),
        end_item(end),
        Seq::empty(),
    );
    assert(grouped_count_malicious_query_text(Some(host), start, end) =~= grouped_count_malicious_query_text(Some(host), start, end) + Seq::<char>::empty());
    lemma_query_contains_first_filter(
        "select * from messages "@,
        host_condition_text(host),
        start_item(start),
        end_item(end),
        " limit 1000"@,
    );
}

/// The three statistics queries select their records alike. The flow
/// details query and the malicious-count query filter by the very same
/// `WHERE` clause; so does the throughput query when no end is given (with
/// an end, it stops at the start of the interval in which the end falls).
pub proof fn lemma_statistics_queries_share_filters(
    host: Option<Seq<char>>,
    interval_secs: u64,
    start: Option<Seq<char>>,
    end: Option<Seq<char>>,
)
    ensures
        flows_detail_stats_query_text(host, start, end) == "select * from messages "@
            + grouped_count_malicious_query_text(host, start, end).skip(
            "WITH countMap(map(malicious, 1)) AS map SELECT map[true] as n_malicious, map[false] as n_non_malicious FROM messages"@.len() as int,
        ) + " limit 1000"@,
        throughput_stats_query_text(host, interval_secs, start, None) == "SELECT toUInt64(count()/"@
            + decimal(interval_secs as nat)
            + ") flows_per_second, tumbleEnd(timestamp, toIntervalSecond('"@ + decimal(
            interval_secs as nat,
        ) + "')) time FROM messages "@ + grouped_count_malicious_query_text(host, start, None).skip(
            "WITH countMap(map(malicious, 1)) AS map SELECT map[true] as n_malicious, map[false] as n_non_malicious FROM messages"@.len() as int,
        ) + " GROUP BY time ORDER BY time ASC"@,
{
    let g = "WITH countMap(map(malicious, 1)) AS map SELECT map[true] as n_malicious, map[false] as n_non_malicious FROM messages"@;
    let w = condition_clause("WHERE"@, present(seq![host_item(host), start_item(start), end_item(end)]));
    assert((g + w).skip(g.len() as int) =~= w);
    let w0 = condition_clause("WHERE"@, present(seq![host_item(host), start_item(start), end_item(None)]));
    assert((g + w0).skip(g.len() as int) =~= w0);
    assert(end_interval_item(None, interval_secs) == end_item(None));
}

/// The query for the numbers of malicious and non-malicious records,
/// filtered by host and time.
pub open spec fn grouped_count_malicious_query_text(
    host: Option<Seq<char>>,
    start: Option<Seq<char>>,
    end: Option<Seq<char>>,
) -> Seq<char> {
    "WITH countMap(map(malicious, 1)) AS map SELECT map[true] as n_malicious, map[false] as n_non_malicious FROM messages"@
        + condition_clause(
        "WHERE"@,
        present(
            seq![
                host_item(host),
                start_item(start),
                end_item(end),
            ],
        ),
    )
}

/// The query for the numbers of malicious and non-malicious records
/// (`fetch_grouped_count_malicious`).
pub fn grouped_count_malicious_query(
    host: Option<&str>,
    start_date: Option<&UtcDateTime>,
    end_date: Option<&UtcDateTime>,
) -> (r: String)
    ensures
        r@ == grouped_count_malicious_query_text(
            opt_str(host),
            opt_text(start_date),
            opt_text(end_date),
        ),
        host matches Some(h) ==> contains_text(r@, " WHERE "@ + host_condition_text(h@)),
{
    proof {
        if let Some(h) = host {
            lemma_statistics_queries_filter_by_host(h@, 0, opt_text(start_date), opt_text(end_date));
        }
    }
    let c1 = host_condition(host);
    let c2 = start_condition(start_date);
    let c3 = end_condition(end_date);
    assert(opt_view(c1) == host_item(opt_str(host)));
    assert(opt_view(c2) == start_item(opt_text(start_date)));
    assert(opt_view(c3) == end_item(opt_text(end_date)));
    let condition = where_clause(c1, c2, c3);
    let mut query = String::from_str(
        "WITH countMap(map(malicious, 1)) AS map SELECT map[true] as n_malicious, map[false] as n_non_malicious FROM messages",
    );
    query.append(condition.as_str());
    query
}

} // verus!
