use krewetka::reporting::config::Settings;
use krewetka::reporting::datetime::{deserialize_optional_datetime, UtcDateTime};
use krewetka::reporting::db::{
    flows_detail_stats_query, grouped_count_malicious_query, throughput_stats_query, QueryCondition,
};
use krewetka::reporting::errors::{AppError, ResponderErr};
use krewetka::reporting::models::{CountsBlock, MaliciousVsNonMalicious, ThroughputStats};
use krewetka::reporting::throughput::{
    client_timed_out, default_aggr_interval, ThroughputParams, ThroughputWsState,
};

fn date(s: &str) -> UtcDateTime {
    UtcDateTime::parse_rfc3339(s).unwrap()
}

#[test]
fn test_display_query_condition() {
    let conditions = QueryCondition::new()
        .condition(Some("host = 'bb'".to_owned()))
        .condition(Some("test >= 1".to_owned()))
        .condition(None)
        .condition(Some("date < '2022-10-11T12:00:00Z'".to_owned()))
        .condition(None)
        .prepare();

    assert_eq!(
        " WHERE host = 'bb' AND test >= 1 AND date < '2022-10-11T12:00:00Z'",
        conditions
    )
}

#[test]
fn query_condition_empty_and_single() {
    let q = QueryCondition::new();
    assert!(!q.is_ready());
    assert_eq!(q.prepare(), "");
    let q = QueryCondition::new().condition(None).condition(Some("a = 1".into()));
    assert!(q.is_ready());
    assert_eq!(q.prepare(), " WHERE a = 1");
}

#[test]
fn test_deserialization_should_fail() {
    let result = deserialize_optional_datetime(Some("2022-13-12T10:00:00+07:00"));
    assert_eq!(true, result.is_err())
}

#[test]
fn deserialization_correct_values() {
    let d = deserialize_optional_datetime(Some("2022-12-12T10:00:00Z")).unwrap().unwrap();
    assert_eq!(d.timestamp(), 1670839200);
    let shifted = deserialize_optional_datetime(Some("2022-12-12T10:00:00+07:00")).unwrap().unwrap();
    assert_eq!(shifted.timestamp(), 1670814000);
    assert_eq!(shifted.timestamp_subsec_nanos(), 0);
    assert_eq!(shifted.to_display(), "2022-12-12 03:00:00 UTC");
    assert!(deserialize_optional_datetime(None).unwrap().is_none());
}

#[test]
fn datetime_from_timestamp() {
    let d = UtcDateTime::from_timestamp(1665489600, 0).unwrap();
    assert_eq!(d.to_display(), "2022-10-11 12:00:00 UTC");
    assert_eq!(d.duplicate().timestamp(), 1665489600);
    assert!(UtcDateTime::from_timestamp(i64::MAX, 0).is_none());
}

#[test]
fn queries_for_statistics() {
    let start = date("2022-10-11T12:00:00Z");
    let end = date("2022-10-12T00:00:00Z");
    assert_eq!(
        grouped_count_malicious_query(None, None, None),
        "WITH countMap(map(malicious, 1)) AS map SELECT map[true] as n_malicious, map[false] as n_non_malicious FROM messages"
    );
    assert_eq!(
        grouped_count_malicious_query(Some("ubuntu"), Some(&start), Some(&end)),
        "WITH countMap(map(malicious, 1)) AS map SELECT map[true] as n_malicious, map[false] as n_non_malicious FROM messages WHERE host = 'ubuntu' AND timestamp >= parseDateTimeBestEffort('2022-10-11 12:00:00 UTC') AND timestamp < parseDateTimeBestEffort('2022-10-12 00:00:00 UTC')"
    );
    assert_eq!(
        grouped_count_malicious_query(None, None, Some(&end)),
        "WITH countMap(map(malicious, 1)) AS map SELECT map[true] as n_malicious, map[false] as n_non_malicious FROM messages WHERE timestamp < parseDateTimeBestEffort('2022-10-12 00:00:00 UTC')"
    );
    assert_eq!(
        flows_detail_stats_query(Some("h"), None, None),
        "select * from messages  WHERE host = 'h' limit 1000"
    );
    assert_eq!(flows_detail_stats_query(None, None, None), "select * from messages  limit 1000");
    assert_eq!(
        flows_detail_stats_query(None, None, Some(&end)),
        "select * from messages  WHERE timestamp < parseDateTimeBestEffort('2022-10-12 00:00:00 UTC') limit 1000"
    );
    assert_eq!(
        flows_detail_stats_query(Some("h"), Some(&start), Some(&end)),
        "select * from messages  WHERE host = 'h' AND timestamp >= parseDateTimeBestEffort('2022-10-11 12:00:00 UTC') AND timestamp < parseDateTimeBestEffort('2022-10-12 00:00:00 UTC') limit 1000"
    );
    assert_eq!(
        throughput_stats_query(None, 15, Some(&start), Some(&end)),
        "SELECT toUInt64(count()/15) flows_per_second, tumbleEnd(timestamp, toIntervalSecond('15')) time FROM messages  WHERE timestamp >= parseDateTimeBestEffort('2022-10-11 12:00:00 UTC') AND timestamp < toStartOfInterval(parseDateTimeBestEffort('2022-10-12 00:00:00 UTC'), interval 15 second) GROUP BY time ORDER BY time ASC"
    );
}

#[test]
fn settings_dsn() {
    let s = Settings {
        clickhouse_user: "u".into(),
        clickhouse_password: "p".into(),
        clickhouse_host: "localhost".into(),
        clickhouse_port: 9000,
    };
    assert_eq!(s.dsn(), "tcp://u:p@localhost:9000/default?compression=lz4&send_retries=0");
}

#[test]
fn counts_from_query_result() {
    let ok = CountsBlock { row_count: 1, column_count: 2, n_malicious: Some(30), n_non_malicious: Some(15) };
    assert_eq!(MaliciousVsNonMalicious::try_from_block(ok).ok(), Some(MaliciousVsNonMalicious::new(30, 15)));
    let shape = CountsBlock { row_count: 2, column_count: 2, n_malicious: Some(1), n_non_malicious: Some(1) };
    match MaliciousVsNonMalicious::try_from_block(shape) {
        Err(AppError::DBAccessorError(m)) => assert_eq!(m, "Fetching malicious and non malicious quantities failed"),
        other => panic!("unexpected {other:?}"),
    }
    let missing = CountsBlock { row_count: 1, column_count: 2, n_malicious: None, n_non_malicious: Some(1) };
    match MaliciousVsNonMalicious::try_from_block(missing) {
        Err(AppError::DBAccessorError(m)) => assert_eq!(m, "Missing n_malicious"),
        other => panic!("unexpected {other:?}"),
    }
    let missing = CountsBlock { row_count: 1, column_count: 2, n_malicious: Some(1), n_non_malicious: None };
    match MaliciousVsNonMalicious::try_from_block(missing) {
        Err(AppError::DBAccessorError(m)) => assert_eq!(m, "Missing n_non_malicious"),
        other => panic!("unexpected {other:?}"),
    }
}

#[test]
fn every_error_answers_internal_error() {
    let errors = vec![
        AppError::DBAccessorError("x".into()),
        AppError::DbCouldNotGetHandler(clickhouse_rs::errors::Error::Other("down".into())),
        AppError::JsonSerialization("y".into()),
        AppError::Unimplemented,
    ];
    for e in errors {
        let r = ResponderErr::from(e);
        assert_eq!(r, ResponderErr::InternalError);
        assert_eq!(r.status_code(), 500);
        assert_eq!(r.message(), "An internal error occurred. Please try again later.");
    }
    let from_db = AppError::from(clickhouse_rs::errors::Error::Other("gone".into()));
    assert!(matches!(from_db, AppError::DbCouldNotGetHandler(_)));
}

#[test]
fn throughput_stream_resumes_after_last_point() {
    let params = ThroughputParams {
        aggr_interval: default_aggr_interval(),
        host: None,
        start_period: Some(date("2022-10-11T00:00:00Z")),
        end_period: None,
    };
    assert_eq!(params.aggr_interval, 86400);
    let now = date("2022-10-12T00:00:00Z");
    let mut state = ThroughputWsState::new();
    let (start, end) = state.fetch_window(&params, &now);
    assert_eq!(start.unwrap().to_display(), "2022-10-11 00:00:00 UTC");
    assert_eq!(end.unwrap().to_display(), "2022-10-12 00:00:00 UTC");
    state.record_fetched(&vec![]);
    let (start, _) = state.fetch_window(&params, &now);
    assert_eq!(start.unwrap().to_display(), "2022-10-11 00:00:00 UTC");
    let points = vec![
        ThroughputStats::new(date("2022-10-11T10:00:00Z"), 5),
        ThroughputStats::new(date("2022-10-11T11:00:00Z"), 7),
    ];
    assert_eq!(points[1].get_packets_per_second(), 7);
    state.record_fetched(&points);
    let (start, _) = state.fetch_window(&params, &now);
    assert_eq!(start.unwrap().to_display(), "2022-10-11 11:00:00 UTC");
    assert!(!client_timed_out(10_000));
    assert!(client_timed_out(10_001));
    assert!(client_timed_out(15_000));
}

#[test]
fn test_fetch_count_malicious_parametrized() {
    let now = date("2022-11-06T10:00:00Z");
    let three_days_ago = date("2022-11-03T10:00:00Z");
    let cases: Vec<(Option<&str>, Option<&UtcDateTime>, Option<&UtcDateTime>)> = vec![
        (None, None, None),
        (Some("ubuntu"), None, None),
        (Some("ubuntu"), Some(&three_days_ago), Some(&now)),
        (None, Some(&three_days_ago), Some(&now)),
        (None, None, Some(&now)),
        (None, Some(&three_days_ago), None),
    ];
    for (host, start_date, end_date) in cases {
        let mut query = "WITH countMap(map(malicious, 1)) AS map SELECT map[true] as n_malicious, map[false] as n_non_malicious FROM messages".to_owned();
        let condition = QueryCondition::new()
            .condition(host.map(|v| format!("host = '{v}'")))
            .condition(start_date.map(|v| format!("timestamp >= parseDateTimeBestEffort('{}')", v.to_display())))
            .condition(end_date.map(|v| format!("timestamp < parseDateTimeBestEffort('{}')", v.to_display())))
            .prepare();
        query.push_str(&condition);
        assert_eq!(grouped_count_malicious_query(host, start_date, end_date), query);
    }
}
