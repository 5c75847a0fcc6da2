use rgb_stress_test::search::{
    elapsed_seconds, get_time_diff, grep_log, time_matches, time_ops, validation_markers,
    LogError, LogInstant, LogMatch, Marker,
};

fn line(ts: &str, text: &str) -> String {
    format!("{ts} INFO {text}\n")
}

/// A log of 20 lines with the validation markers at lines 10 and 14.
fn validation_log() -> String {
    let mut log = String::new();
    for i in 1..=20 {
        let text = match i {
            10 => "Validating consignment abc",
            14 => "Consignment validity: valid",
            _ => "other work",
        };
        let ts = if i < 14 { "2024-03-01T12:00:05.100+00" } else { "2024-03-01T12:00:07.300+00" };
        log.push_str(&line(ts, text));
    }
    log
}

#[test]
fn validation_is_timed_from_marker_lines() {
    let (begin, end) = validation_markers();
    assert_eq!(time_ops(&validation_log(), begin, end), Ok((2, 10, 14)));
}

#[test]
fn last_occurrence_of_each_marker_counts() {
    let mut log = String::new();
    log.push_str(&line("2024-03-01T12:00:00.000+00", "begin op"));
    log.push_str(&line("2024-03-01T12:00:03.000+00", "end op"));
    log.push_str(&line("2024-03-01T12:01:00.000+00", "begin op"));
    log.push_str(&line("2024-03-01T12:01:05.000+00", "end op"));
    assert_eq!(time_ops(&log, "begin op", "end op"), Ok((5, 3, 4)));
}

#[test]
fn missing_marker_is_an_error() {
    let log = validation_log();
    assert_eq!(
        time_ops(&log, "never there", "Consignment validity"),
        Err(LogError::NoMatch { marker: Marker::Begin })
    );
    assert_eq!(
        time_ops(&log, "Validating consignment", "never there"),
        Err(LogError::NoMatch { marker: Marker::End })
    );
}

#[test]
fn invalid_pattern_is_an_error() {
    assert_eq!(time_ops(&validation_log(), "(", "x"), Err(LogError::BadPattern));
    assert_eq!(grep_log("a\nb\n", "[").err(), Some(LogError::BadPattern));
}

#[test]
fn short_matching_line_is_an_error() {
    let log = "2024-03-01T12:00:00.000+00 ok\nshort marker\n";
    assert_eq!(grep_log(log, "marker").err(), Some(LogError::ShortLine { line: 2 }));
}

#[test]
fn grep_uses_regular_expressions() {
    let log = validation_log();
    let found = grep_log(&log, "Valid[a-z]+ consignment").unwrap();
    assert_eq!(found.len(), 1);
    assert_eq!(found[0].line, 10);
    assert_eq!(found[0].timestamp, "2024-03-01T12:00:05.100+00");
    let all = grep_log(&log, "^2024").unwrap();
    assert_eq!(all.len(), 20);
    assert_eq!(all[19].line, 20);
}

#[test]
fn last_matches_are_timed() {
    let b = vec![m(2, "2024-03-01T12:00:00.000+00"), m(7, "2024-03-01T12:00:10.000+00")];
    let e = vec![m(9, "2024-03-01T12:00:13.500+00")];
    assert_eq!(time_matches(&b, &e), Ok((3, 7, 9)));
    assert_eq!(time_matches(&vec![], &e), Err(LogError::NoMatch { marker: Marker::Begin }));
    assert_eq!(time_matches(&b, &vec![]), Err(LogError::NoMatch { marker: Marker::End }));
}

#[test]
fn first_short_begin_line_is_reported() {
    let log = "short begin\n2024-03-01T12:00:00.000+00 end\nbegin too\n";
    assert_eq!(time_ops(log, "begin", "end"), Err(LogError::ShortLine { line: 1 }));
    assert_eq!(time_ops(log, "end", "begin"), Err(LogError::ShortLine { line: 1 }));
}

fn m(line: u64, ts: &str) -> LogMatch {
    LogMatch { line, timestamp: ts.to_string() }
}

#[test]
fn time_difference_rounds_toward_zero() {
    let a = m(1, "2024-03-01T12:00:00.900+02");
    let b = m(2, "2024-03-01T12:00:02.100+02");
    assert_eq!(get_time_diff((a.clone(), b.clone())), Ok(1));
    assert_eq!(get_time_diff((b, a)), Ok(-1));
}

#[test]
fn time_difference_respects_offsets() {
    let a = m(1, "2024-03-01T12:00:00.000+02");
    let b = m(2, "2024-03-01T11:00:10.000+01");
    assert_eq!(get_time_diff((a, b)), Ok(10));
}

#[test]
fn unparsable_timestamp_is_an_error() {
    let a = m(3, "not a timestamp at all....");
    let b = m(4, "2024-03-01T12:00:00.000+02");
    assert_eq!(get_time_diff((a.clone(), b.clone())), Err(LogError::BadTimestamp { line: 3 }));
    assert_eq!(get_time_diff((b, a)), Err(LogError::BadTimestamp { line: 3 }));
}

#[test]
fn elapsed_seconds_exact() {
    let t0 = LogInstant { secs: 100, nanos: 500_000_000 };
    let t1 = LogInstant { secs: 99, nanos: 0 };
    assert_eq!(elapsed_seconds(t0, t1), Some(-1));
    assert_eq!(elapsed_seconds(t1, t0), Some(1));
    let lo = LogInstant { secs: i64::MIN, nanos: 0 };
    let hi = LogInstant { secs: i64::MAX, nanos: 0 };
    assert_eq!(elapsed_seconds(lo, hi), None);
    assert_eq!(elapsed_seconds(lo, lo), Some(0));
}
