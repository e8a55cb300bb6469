//! Instants and their texts.
//!
//! Instants are seconds since the Unix epoch in UTC. Reading the clock and
//! writing an instant as text is done by the calendar library; this module
//! names what it hands back.

use crate::engine::opt_text;
use vstd::prelude::*;

verus! {

/// How an instant is written.
#[derive(Clone, Copy, Debug, PartialEq, Eq, Structural)]
pub enum Pattern {
    /// Date and minute, as messages and members carry it: `2024-01-15 10:30`.
    Minute,
    /// Hour and minute, as the bot's own messages carry it: `10:30`.
    Clock,
    /// Date and second with `T` and `Z`, as signals carry it: `2024-01-15T10:30:00Z`.
    Stamp,
    /// Date and second, as the feedback log carries it: `2024-01-15 10:30:00 UTC`.
    Log,
}

impl Pattern {
    /// The format string of the pattern.
    pub open spec fn format_text(self) -> Seq<char> {
        match self {
            Pattern::Minute => "%Y-%m-%d %H:%M"@,
            Pattern::Clock => "%H:%M"@,
            Pattern::Stamp => "%Y-%m-%dT%H:%M:%SZ"@,
            Pattern::Log => "%Y-%m-%d %H:%M:%S UTC"@,
        }
    }

    /// The format string of the pattern.
    pub fn format(self) -> (out: &'static str)
        ensures
            out@ == self.format_text(),
    {
        match self {
            Pattern::Minute => "%Y-%m-%d %H:%M",
            Pattern::Clock => "%H:%M",
            Pattern::Stamp => "%Y-%m-%dT%H:%M:%SZ",
            Pattern::Log => "%Y-%m-%d %H:%M:%S UTC",
        }
    }
}

/// The text of the instant `at` in the format `format`, where the calendar
/// reaches `at`.
pub uninterp spec fn utc_text(at: int, format: Seq<char>) -> Option<Seq<char>>;

/// The text of the instant `at` as RFC 3339, where the calendar reaches `at`.
pub uninterp spec fn rfc3339_text(at: int) -> Option<Seq<char>>;

/// The instant that the RFC 3339 text `text` names, or the parser's complaint.
pub uninterp spec fn rfc3339_instant(text: Seq<char>) -> Result<int, Seq<char>>;

/// Whether `format` is the format string of one of the patterns.
pub open spec fn is_pattern_format(format: Seq<char>) -> bool {
    exists|pattern: Pattern| format == pattern.format_text()
}

/// The current instant, in milliseconds.
///
/// Trusted: calls `chrono::Utc::now` and takes its milliseconds. Nothing is
/// claimed of the result.
#[verifier::external_body]
pub(crate) fn utc_now_millis() -> i64 {
    chrono::Utc::now().timestamp_millis()
}

/// The whole seconds of the millisecond instant `millis`, rounded down.
pub open spec fn whole_seconds(millis: int) -> int {
    millis / 1000
}

/// The whole seconds of an instant given in milliseconds, rounded down.
pub fn seconds_of(millis: i64) -> (seconds: i64)
    ensures
        seconds == whole_seconds(millis as int),
{
    if millis >= 0 {
        millis / 1000
    } else {
        let below: i128 = 999 - millis as i128;
        let whole: i128 = below / 1000;
        assert(-whole == millis as int / 1000) by (nonlinear_arith)
            requires
                millis < 0,
                whole == (999 - millis) / 1000,
        ;
        (-whole) as i64
    }
}

/// The current instant, in seconds: the whole seconds of the millisecond
/// that the clock shows.
pub(crate) fn utc_now() -> (now: i64)
    ensures
        exists|millis: i64| now == #[trigger] whole_seconds(millis as int),
{
    let millis = utc_now_millis();
    let now = seconds_of(millis);
    assert(now == whole_seconds(millis as int));
    now
}

/// Writes an instant in the given format.
///
/// Trusted: converts with `chrono::DateTime::from_timestamp` and writes
/// with `DateTime::format`, which fails on a format string that it cannot
/// read: only the patterns' format strings are admitted. The result
/// depends on the arguments alone and is named by [`utc_text`].
#[verifier::external_body]
fn write_utc(at: i64, format: &str) -> (r: Option<String>)
    requires
        is_pattern_format(format@),
    ensures
        opt_text(r) == utc_text(at as int, format@),
{
    chrono::DateTime::from_timestamp(at, 0).map(|t| t.format(format).to_string())
}

/// Writes an instant as RFC 3339.
///
/// Trusted: converts with `chrono::DateTime::from_timestamp` and writes
/// with `DateTime::to_rfc3339`. The result depends on the instant alone
/// and is named by [`rfc3339_text`].
#[verifier::external_body]
fn write_rfc3339(at: i64) -> (r: Option<String>)
    ensures
        opt_text(r) == rfc3339_text(at as int),
{
    chrono::DateTime::from_timestamp(at, 0).map(|t| t.to_rfc3339())
}

/// Reads an instant from RFC 3339.
///
/// Trusted: calls `chrono::DateTime::parse_from_rfc3339` and takes the
/// seconds of the result. The result depends on the text alone and is
/// named by [`rfc3339_instant`].
#[verifier::external_body]
fn read_rfc3339(text: &str) -> (r: Result<i64, String>)
    ensures
        crate::reminders::instant_view(r) == rfc3339_instant(text@),
{
    match chrono::DateTime::parse_from_rfc3339(text) {
        Ok(at) => Ok(at.timestamp()),
        Err(e) => Err(e.to_string()),
    }
}

/// Writes the instant `at` in the given pattern. An instant that the
/// calendar does not reach has no text.
pub fn format_instant(at: i64, pattern: Pattern) -> (r: Option<String>)
    ensures
        opt_text(r) == utc_text(at as int, pattern.format_text()),
{
    write_utc(at, pattern.format())
}

/// Writes the instant `at` as the archive stores it.
pub fn to_rfc3339(at: i64) -> (r: Option<String>)
    ensures
        opt_text(r) == rfc3339_text(at as int),
{
    write_rfc3339(at)
}

/// Reads an instant as the archive stores it.
pub fn from_rfc3339(text: &str) -> (r: Result<i64, String>)
    ensures
        crate::reminders::instant_view(r) == rfc3339_instant(text@),
{
    read_rfc3339(text)
}

/// The instant that a stored text stands for, or `fallback` where the
/// text cannot be read.
pub fn instant_or(text: &str, fallback: i64) -> (at: i64)
    ensures
        at == match rfc3339_instant(text@) {
            Ok(t) => t,
            Err(_) => fallback as int,
        },
{
    match read_rfc3339(text) {
        Ok(at) => at,
        Err(_) => fallback,
    }
}

/// The number of seconds in a day.
pub const DAY: i64 = 86400;

/// The instant `days` days before `now`, where it fits.
pub fn days_before(now: i64, days: i64) -> (r: Option<i64>)
    ensures
        r == if i64::MIN <= now - days * DAY <= i64::MAX {
            Some((now - days * DAY) as i64)
        } else {
            None
        },
{
    let span: i128 = (days as i128) * 86400;
    let at: i128 = now as i128 - span;
    if at < i64::MIN as i128 || at > i64::MAX as i128 {
        None
    } else {
        Some(at as i64)
    }
}

} // verus!
