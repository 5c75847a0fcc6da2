//! Stage timings recovered from a wallet's event log: the lines that match a
//! begin and an end marker, and the seconds between their timestamps.

use vstd::prelude::*;

use crate::text::{chars_of, string_of};

verus! {

/// Width of the timestamp that starts each log line.
pub const TIMESTAMP_WIDTH: usize = 26;

/// Whether the regular expression `pattern` compiles.
pub uninterp spec fn regex_compiles(pattern: Seq<char>) -> bool;

/// The lines of `log` that the compiled `pattern` matches, each with its
/// number counting from 1 and its text including the line break, in order.
pub uninterp spec fn searched_lines(pattern: Seq<char>, log: Seq<char>) -> Seq<(u64, Seq<char>)>;

/// The numbers and texts of found lines.
pub open spec fn found_view(found: Seq<(u64, String)>) -> Seq<(u64, Seq<char>)> {
    found.map_values(|p: (u64, String)| (p.0, p.1@))
}

/// The instant an RFC 3339 text denotes, as whole seconds since the Unix
/// epoch and the nanoseconds past that second; `None` if the text is not
/// RFC 3339.
pub uninterp spec fn rfc3339_instant(text: Seq<char>) -> Option<(int, int)>;

/// Relies on `grep_regex::RegexMatcher::new`, which compiles `pattern` and
/// fails on an invalid one, and on `grep_searcher::Searcher::search_slice`
/// with the `UTF8` sink, which hands out each line of `log` that the pattern
/// matches, with its number, in order.
#[verifier::external_body]
fn search_log(pattern: &str, log: &str) -> (r: Result<Vec<(u64, String)>, LogError>)
    ensures
        !regex_compiles(pattern@) <==> (r matches Err(LogError::BadPattern)),
        r matches Err(e) ==> (e == LogError::BadPattern || e == LogError::SearchFailed),
        r matches Ok(v) ==> found_view(v@) == searched_lines(pattern@, log@),
{
    let matcher = match grep_regex::RegexMatcher::new(pattern) {
        Ok(m) => m,
        Err(_) => return Err(LogError::BadPattern),
    };
    let mut found: Vec<(u64, String)> = Vec::new();
    let sink = grep_searcher::sinks::UTF8(|n, line| {
        found.push((n, line.to_string()));
        Ok(true)
    });
    match grep_searcher::Searcher::new().search_slice(&matcher, log.as_bytes(), sink) {
        Ok(()) => Ok(found),
        Err(_) => Err(LogError::SearchFailed),
    }
}

/// Relies on `chrono::DateTime::parse_from_rfc3339`, with `timestamp` and
/// `timestamp_subsec_nanos` reading the parsed instant.
#[verifier::external_body]
fn parse_rfc3339(text: &str) -> (r: Option<LogInstant>)
    ensures
        r matches Some(t) ==> rfc3339_instant(text@) == Some((t.secs as int, t.nanos as int)),
        r is None ==> rfc3339_instant(text@) is None,
{
    match chrono::DateTime::parse_from_rfc3339(text) {
        Ok(d) => Some(LogInstant { secs: d.timestamp(), nanos: d.timestamp_subsec_nanos() }),
        Err(_) => None,
    }
}

/// A matched log line: its number, counting from 1, and its leading
/// timestamp.
#[derive(Clone, Debug)]
pub struct LogMatch {
    pub line: u64,
    pub timestamp: String,
}

/// An instant: seconds since the Unix epoch and nanoseconds past that second.
#[derive(Clone, Copy, Debug, PartialEq, Eq, Structural)]
pub struct LogInstant {
    pub secs: i64,
    pub nanos: u32,
}

/// Which marker of a pair.
#[derive(Clone, Copy, Debug, PartialEq, Eq, Structural)]
pub enum Marker {
    Begin,
    End,
}

/// Why a log could not be timed.
#[derive(Clone, Copy, Debug, PartialEq, Eq, Structural)]
pub enum LogError {
    /// A marker is not a valid regular expression.
    BadPattern,
    /// The search of the log failed.
    SearchFailed,
    /// A marker matches no line: the operation did not take place.
    NoMatch { marker: Marker },
    /// A matching line is shorter than its timestamp.
    ShortLine { line: u64 },
    /// A matching line does not start with an RFC 3339 timestamp (with the
    /// offset's minutes left off).
    BadTimestamp { line: u64 },
    /// The seconds between the two lines do not fit an `i64`.
    OutOfRange,
}

/// The line is too short to start with a timestamp.
pub open spec fn is_short(line: Seq<char>) -> bool {
    line.len() < TIMESTAMP_WIDTH
}

/// The number of the first of the found lines, from position `k` on, that
/// is too short to start with a timestamp.
pub open spec fn first_short(found: Seq<(u64, Seq<char>)>, k: int) -> Option<u64>
    decreases found.len() - k,
{
    if k < 0 || k >= found.len() {
        None
    } else if is_short(found[k].1) {
        Some(found[k].0)
    } else {
        first_short(found, k + 1)
    }
}

/// `matches` holds the found lines with their leading timestamps.
pub open spec fn matches_found(matches: Seq<LogMatch>, found: Seq<(u64, Seq<char>)>) -> bool {
    &&& matches.len() == found.len()
    &&& forall|j: int|
        0 <= j < matches.len() ==> {
            &&& (#[trigger] matches[j]).line == found[j].0
            &&& matches[j].timestamp@ == found[j].1.take(TIMESTAMP_WIDTH as int)
        }
}

/// The found lines, each with its number and leading timestamp; the first
/// line too short to start with a timestamp is an error.
pub fn log_matches(found: &Vec<(u64, String)>) -> (r: Result<Vec<LogMatch>, LogError>)
    ensures
        first_short(found_view(found@), 0) matches Some(l) ==> r == Err::<Vec<LogMatch>, LogError>(
            LogError::ShortLine { line: l },
        ),
        first_short(found_view(found@), 0) is None ==> (r matches Ok(v) && matches_found(
            v@,
            found_view(found@),
        )),
{
    let ghost fv = found_view(found@);
    let mut out: Vec<LogMatch> = Vec::new();
    let mut i: usize = 0;
    while i < found.len()
        invariant
            i <= found.len(),
            fv == found_view(found@),
            first_short(fv, 0) == first_short(fv, i as int),
            matches_found(out@, fv.take(i as int)),
        decreases found.len() - i,
    {
        let chars = chars_of(found[i].1.as_str());
        assert(fv[i as int] == (found[i as int].0, found[i as int].1@));
        if chars.len() < TIMESTAMP_WIDTH {
            return Err(LogError::ShortLine { line: found[i].0 });
        }
        let ts = string_of(&chars.as_slice()[0..TIMESTAMP_WIDTH]);
        let ghost prev = out@;
        out.push(LogMatch { line: found[i].0, timestamp: ts });
        assert forall|j: int| 0 <= j < i + 1 implies {
            &&& (#[trigger] out@[j]).line == fv.take(i + 1)[j].0
            &&& out@[j].timestamp@ == fv.take(i + 1)[j].1.take(TIMESTAMP_WIDTH as int)
        } by {
            if j < i {
                assert(out@[j] == prev[j]);
                assert(fv.take(i as int)[j] == fv.take(i + 1)[j]);
            }
        }
        i = i + 1;
    }
    assert(fv.take(found.len() as int) == fv);
    Ok(out)
}

/// Every line of `log` that `pattern` matches, with its number and its
/// leading timestamp.
pub fn grep_log(log: &str, pattern: &str) -> (r: Result<Vec<LogMatch>, LogError>)
    ensures
        !regex_compiles(pattern@) <==> r == Err::<Vec<LogMatch>, LogError>(LogError::BadPattern),
        regex_compiles(pattern@) && r != Err::<Vec<LogMatch>, LogError>(LogError::SearchFailed)
            ==> {
            let found = searched_lines(pattern@, log@);
            &&& first_short(found, 0) matches Some(l) ==> r == Err::<Vec<LogMatch>, LogError>(
                LogError::ShortLine { line: l },
            )
            &&& first_short(found, 0) is None ==> (r matches Ok(v) && matches_found(v@, found))
        },
{
    match search_log(pattern, log) {
        Ok(found) => log_matches(&found),
        Err(e) => Err(e),
    }
}

/// Nanoseconds per second.
pub const NANOS_PER_SEC: i128 = 1_000_000_000;

/// The nanoseconds from `begin` to `end`, each given as seconds and
/// nanoseconds past the second.
pub open spec fn nanos_between(begin: (int, int), end: (int, int)) -> int {
    (end.0 * NANOS_PER_SEC + end.1) - (begin.0 * NANOS_PER_SEC + begin.1)
}

/// Whole seconds in `nanos`, rounded toward zero.
pub open spec fn whole_seconds(nanos: int) -> int {
    if nanos >= 0 {
        nanos / NANOS_PER_SEC as int
    } else {
        -((-nanos) / NANOS_PER_SEC as int)
    }
}

/// The whole seconds from `begin` to `end`, if they fit an `i64`.
pub open spec fn seconds_between(begin: (int, int), end: (int, int)) -> Option<i64> {
    let s = whole_seconds(nanos_between(begin, end));
    if i64::MIN <= s <= i64::MAX {
        Some(s as i64)
    } else {
        None
    }
}

/// The whole seconds from `begin` to `end`, rounded toward zero; `None`
/// when they do not fit an `i64`.
pub fn elapsed_seconds(begin: LogInstant, end: LogInstant) -> (r: Option<i64>)
    ensures
        r == seconds_between(
            (begin.secs as int, begin.nanos as int),
            (end.secs as int, end.nanos as int),
        ),
{
    let bs = begin.secs as i128;
    let es = end.secs as i128;
    assert(-0x8000_0000_0000_0000 * NANOS_PER_SEC <= bs * NANOS_PER_SEC <= 0x7fff_ffff_ffff_ffff
        * NANOS_PER_SEC) by (nonlinear_arith)
        requires
            -0x8000_0000_0000_0000 <= bs <= 0x7fff_ffff_ffff_ffff,
    ;
    assert(-0x8000_0000_0000_0000 * NANOS_PER_SEC <= es * NANOS_PER_SEC <= 0x7fff_ffff_ffff_ffff
        * NANOS_PER_SEC) by (nonlinear_arith)
        requires
            -0x8000_0000_0000_0000 <= es <= 0x7fff_ffff_ffff_ffff,
    ;
    let b = bs * NANOS_PER_SEC + begin.nanos as i128;
    let e = es * NANOS_PER_SEC + end.nanos as i128;
    let d = e - b;
    let s = if d >= 0 {
        d / NANOS_PER_SEC
    } else {
        -((-d) / NANOS_PER_SEC)
    };
    if s < i64::MIN as i128 || s > i64::MAX as i128 {
        None
    } else {
        Some(s as i64)
    }
}

/// The text that the log's timestamp stands for: the offset's minutes are
/// left off in the log.
pub open spec fn rfc3339_text(timestamp: Seq<char>) -> Seq<char> {
    timestamp + ":00"@
}

/// The seconds between two matched lines, or why they cannot be had.
pub open spec fn time_diff(begin: (u64, Seq<char>), end: (u64, Seq<char>)) -> Result<i64, LogError> {
    match (rfc3339_instant(rfc3339_text(begin.1)), rfc3339_instant(rfc3339_text(end.1))) {
        (None, _) => Err(LogError::BadTimestamp { line: begin.0 }),
        (Some(_), None) => Err(LogError::BadTimestamp { line: end.0 }),
        (Some(b), Some(e)) => match seconds_between(b, e) {
            Some(s) => Ok(s),
            None => Err(LogError::OutOfRange),
        },
    }
}

/// Parses the timestamp of a matched line.
fn log_instant(m: &LogMatch) -> (r: Result<LogInstant, LogError>)
    ensures
        match rfc3339_instant(rfc3339_text(m.timestamp@)) {
            None => r == Err::<LogInstant, LogError>(LogError::BadTimestamp { line: m.line }),
            Some(t) => r matches Ok(i) && t == (i.secs as int, i.nanos as int),
        },
{
    proof {
        reveal_strlit(":00");
    }
    let text = m.timestamp.clone().concat(":00");
    match parse_rfc3339(text.as_str()) {
        Some(t) => Ok(t),
        None => Err(LogError::BadTimestamp { line: m.line }),
    }
}

/// The whole seconds from the first matched line's timestamp to the
/// second's.
pub fn get_time_diff(match_pair: (LogMatch, LogMatch)) -> (r: Result<i64, LogError>)
    ensures
        r == time_diff(
            (match_pair.0.line, match_pair.0.timestamp@),
            (match_pair.1.line, match_pair.1.timestamp@),
        ),
{
    let b = match log_instant(&match_pair.0) {
        Ok(t) => t,
        Err(e) => {
            return Err(e);
        },
    };
    let e = match log_instant(&match_pair.1) {
        Ok(t) => t,
        Err(err) => {
            return Err(err);
        },
    };
    match elapsed_seconds(b, e) {
        Some(s) => Ok(s),
        None => Err(LogError::OutOfRange),
    }
}

/// The result of timing an operation from the lines that its begin and end
/// markers matched: an error for the first line too short for a timestamp
/// (begin lines first), for a marker without lines, or for unreadable
/// timestamps; else the seconds from the last begin line to the last end
/// line, with their numbers.
pub open spec fn correlate(begins: Seq<(u64, Seq<char>)>, ends: Seq<(u64, Seq<char>)>) -> Result<
    (i64, u64, u64),
    LogError,
> {
    match (first_short(begins, 0), first_short(ends, 0)) {
        (Some(l), _) => Err(LogError::ShortLine { line: l }),
        (None, Some(l)) => Err(LogError::ShortLine { line: l }),
        (None, None) => if begins.len() == 0 {
            Err(LogError::NoMatch { marker: Marker::Begin })
        } else if ends.len() == 0 {
            Err(LogError::NoMatch { marker: Marker::End })
        } else {
            let b = (begins.last().0, begins.last().1.take(TIMESTAMP_WIDTH as int));
            let e = (ends.last().0, ends.last().1.take(TIMESTAMP_WIDTH as int));
            match time_diff(b, e) {
                Ok(s) => Ok((s, b.0, e.0)),
                Err(err) => Err(err),
            }
        },
    }
}

/// Times one operation from its matched lines: the whole seconds from the
/// last begin line to the last end line, with the numbers of those lines.
pub fn time_matches(begins: &Vec<LogMatch>, ends: &Vec<LogMatch>) -> (r: Result<
    (i64, u64, u64),
    LogError,
>)
    ensures
        begins.len() == 0 ==> r == Err::<(i64, u64, u64), LogError>(
            LogError::NoMatch { marker: Marker::Begin },
        ),
        begins.len() > 0 && ends.len() == 0 ==> r == Err::<(i64, u64, u64), LogError>(
            LogError::NoMatch { marker: Marker::End },
        ),
        begins.len() > 0 && ends.len() > 0 ==> {
            let b = begins@.last();
            let e = ends@.last();
            r == match time_diff((b.line, b.timestamp@), (e.line, e.timestamp@)) {
                Ok(s) => Ok::<(i64, u64, u64), LogError>((s, b.line, e.line)),
                Err(err) => Err(err),
            }
        },
{
    if begins.len() == 0 {
        return Err(LogError::NoMatch { marker: Marker::Begin });
    }
    if ends.len() == 0 {
        return Err(LogError::NoMatch { marker: Marker::End });
    }
    let lb = &begins[begins.len() - 1];
    let le = &ends[ends.len() - 1];
    let b = LogMatch { line: lb.line, timestamp: lb.timestamp.clone() };
    let e = LogMatch { line: le.line, timestamp: le.timestamp.clone() };
    let (bl, el) = (b.line, e.line);
    match get_time_diff((b, e)) {
        Ok(s) => Ok((s, bl, el)),
        Err(err) => Err(err),
    }
}

/// Times one operation in a wallet's log: the whole seconds from the last
/// line that `begin_pattern` matches to the last line that `end_pattern`
/// matches, with the numbers of those two lines.
pub fn time_ops(log: &str, begin_pattern: &str, end_pattern: &str) -> (r: Result<
    (i64, u64, u64),
    LogError,
>)
    ensures
        !regex_compiles(begin_pattern@) || !regex_compiles(end_pattern@) <==> r == Err::<
            (i64, u64, u64),
            LogError,
        >(LogError::BadPattern),
        regex_compiles(begin_pattern@) && regex_compiles(end_pattern@) && r != Err::<
            (i64, u64, u64),
            LogError,
        >(LogError::SearchFailed) ==> r == correlate(
            searched_lines(begin_pattern@, log@),
            searched_lines(end_pattern@, log@),
        ),
{
    let begins = grep_log(log, begin_pattern);
    let ends = grep_log(log, end_pattern);
    if matches!(begins, Err(LogError::BadPattern)) || matches!(ends, Err(LogError::BadPattern)) {
        return Err(LogError::BadPattern);
    }
    let begins = match begins {
        Ok(v) => v,
        Err(e) => {
            return Err(e);
        },
    };
    let ends = match ends {
        Ok(v) => v,
        Err(e) => {
            return Err(e);
        },
    };
    time_matches(&begins, &ends)
}

/// The markers around a receiver's validation of a consignment.
pub fn validation_markers() -> (r: (&'static str, &'static str))
    ensures
        r.0@ == "Validating consignment"@,
        r.1@ == "Consignment validity"@,
{
    ("Validating consignment", "Consignment validity")
}

} // verus!
