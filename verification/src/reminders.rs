//! Scheduled messages: when a reminder is due, how its trigger time is
//! written, and what becomes of it once it has fired.
//!
//! Instants are seconds since the Unix epoch, in UTC.

use crate::message::byte_len;
use crate::order::{holds, instant_before, instant_order, is_instant_order};
use crate::text::{
    chars_of, concat, has_prefix, is_text, push_all, push_str, slice_of, starts_with, string_of,
    trim, trimmed,
};
use vstd::prelude::*;

verus! {

/// A reminder as the archive holds it.
#[derive(Clone, Debug)]
pub struct Reminder {
    /// Assigned when the reminder is stored.
    pub id: i64,
    pub chat_id: i64,
    /// The creator; may be 0.
    pub user_id: i64,
    /// The text to deliver.
    pub message: String,
    pub trigger_at: i64,
    /// A schedule of seven fields: second, minute, hour, day of month,
    /// month, day of week, year.
    pub repeat_cron: Option<String>,
    pub created_at: i64,
    pub last_triggered_at: Option<i64>,
    pub active: bool,
}

/// The latest instant that a reminder can be set to: the end of the year 9999.
pub const MAX_INSTANT: i64 = 253402300799;

/// The earliest instant that a reminder can be set to: the start of the year 0.
pub const MIN_INSTANT: i64 = -62167219200;

/// Whether `c` is one of `0` to `9`.
pub open spec fn is_digit(c: char) -> bool {
    '0' <= c <= '9'
}

/// The number that the decimal digits `digits` write.
pub open spec fn digits_value(digits: Seq<char>) -> nat
    decreases digits.len(),
{
    if digits.len() == 0 {
        0
    } else {
        digits_value(digits.drop_last()) * 10 + (digits.last() as u32 - '0' as u32) as nat
    }
}

/// The length of the run of digits at the start of `s`.
pub open spec fn digits_len(s: Seq<char>) -> int
    decreases s.len(),
{
    if s.len() == 0 || !is_digit(s[0]) {
        0
    } else {
        1 + digits_len(s.drop_first())
    }
}

/// The number of seconds in the unit that `unit` names, if it names one.
pub open spec fn unit_seconds(unit: Seq<char>) -> Option<int> {
    if unit == "m"@ || unit == "min"@ || unit == "mins"@ || unit == "minute"@ || unit
        == "minutes"@ {
        Some(60)
    } else if unit == "h"@ || unit == "hr"@ || unit == "hrs"@ || unit == "hour"@ || unit
        == "hours"@ {
        Some(3600)
    } else if unit == "d"@ || unit == "day"@ || unit == "days"@ {
        Some(86400)
    } else if unit == "w"@ || unit == "week"@ || unit == "weeks"@ {
        Some(604800)
    } else {
        None
    }
}

/// What the calendar's parser reads from `text` in the format `format`: the
/// instant, or its complaint.
pub uninterp spec fn parsed_instant(text: Seq<char>, format: Seq<char>) -> Result<int, Seq<char>>;

/// The format of an absolute trigger time, with the offset from UTC at its end.
pub const MINUTE_FORMAT: &'static str = "%Y-%m-%d %H:%M %z";

/// The offset that is added to an absolute trigger time: the time is one of UTC.
pub const UTC_OFFSET: &'static str = " +0000";

/// What parsing `YYYY-MM-DD HH:MM` as an instant of UTC gives for the text
/// `input`: the instant, or the parser's complaint.
pub open spec fn utc_minute(input: Seq<char>) -> Result<int, Seq<char>> {
    parsed_instant(input + UTC_OFFSET@, MINUTE_FORMAT@)
}

/// The view of an instant read by the parser.
pub open spec fn instant_view(r: Result<i64, String>) -> Result<int, Seq<char>> {
    match r {
        Ok(t) => Ok(t as int),
        Err(e) => Err(e@),
    }
}

/// Reads an instant with its offset from a text in the given format.
///
/// Trusted: calls `chrono::DateTime::parse_from_str` and takes the seconds
/// of the result, or the text of its error. The result depends on the
/// arguments alone and is named by [`parsed_instant`].
#[verifier::external_body]
fn parse_instant(text: &str, format: &str) -> (r: Result<i64, String>)
    ensures
        instant_view(r) == parsed_instant(text@, format@),
{
    match chrono::DateTime::parse_from_str(text, format) {
        Ok(at) => Ok(at.timestamp()),
        Err(e) => Err(e.to_string()),
    }
}

/// The instant that the relative trigger time `rest` (the text after the
/// `+`) names at the instant `now`. `whole` is the trimmed input, which the
/// complaints quote.
pub open spec fn relative_trigger(whole: Seq<char>, rest: Seq<char>, now: int) -> Result<
    int,
    Seq<char>,
> {
    let n = digits_len(rest);
    let unit = rest.subrange(n, rest.len() as int);
    if byte_len(rest) < 2 {
        Err("Invalid relative time: '"@ + whole + "'"@)
    } else if n == 0 || digits_value(rest.subrange(0, n)) > i64::MAX {
        Err("Invalid number in '"@ + whole + "'"@)
    } else {
        match unit_seconds(unit) {
            None => Err("Unknown unit '"@ + unit + "'. Use m/h/d/w"@),
            Some(seconds) => {
                let at = now + digits_value(rest.subrange(0, n)) * seconds;
                if MIN_INSTANT <= at <= MAX_INSTANT {
                    Ok(at)
                } else {
                    Err("Time out of range in '"@ + whole + "'"@)
                }
            },
        }
    }
}

/// The instant that the trigger time `input` names at the instant `now`:
/// `+N` with a unit counts from `now`, anything else is read as
/// `YYYY-MM-DD HH:MM` in UTC.
pub open spec fn trigger_time(input: Seq<char>, now: int) -> Result<int, Seq<char>> {
    let whole = trimmed(input);
    if has_prefix(whole, "+"@) {
        relative_trigger(whole, whole.subrange(1, whole.len() as int), now)
    } else {
        match utc_minute(whole) {
            Ok(at) => Ok(at),
            Err(e) => Err("Invalid date format: "@ + e + ". Use YYYY-MM-DD HH:MM"@),
        }
    }
}

fn quoted_fault(before: &str, quoted: &Vec<char>, after: &str) -> (out: String)
    ensures
        out@ == before@ + quoted@ + after@,
{
    let mut buf: Vec<char> = Vec::new();
    push_str(&mut buf, before);
    push_all(&mut buf, quoted);
    push_str(&mut buf, after);
    string_of(&buf)
}

fn count_digits(s: &Vec<char>) -> (n: usize)
    ensures
        n == digits_len(s@),
        n <= s@.len(),
{
    let mut n: usize = 0;
    proof {
        assert(s@.subrange(0, s@.len() as int) =~= s@);
    }
    while n < s.len() && '0' <= s[n] && s[n] <= '9'
        invariant
            n <= s@.len(),
            digits_len(s@) == n + digits_len(s@.subrange(n as int, s@.len() as int)),
        decreases s@.len() - n,
    {
        proof {
            let tail = s@.subrange(n as int, s@.len() as int);
            assert(tail[0] == s@[n as int]);
            assert(tail.drop_first() =~= s@.subrange(n + 1, s@.len() as int));
        }
        n += 1;
    }
    proof {
        let tail = s@.subrange(n as int, s@.len() as int);
        if n < s@.len() {
            assert(tail[0] == s@[n as int]);
        }
        if n == 0 {
            assert(tail =~= s@);
        }
    }
    n
}

fn unit_of(unit: &Vec<char>) -> (r: Option<i64>)
    ensures
        match r {
            Some(seconds) => unit_seconds(unit@) == Some(seconds as int),
            None => unit_seconds(unit@) is None,
        },
        r matches Some(seconds) ==> 0 < seconds <= 604800,
{
    if is_text(unit, "m") || is_text(unit, "min") || is_text(unit, "mins") || is_text(
        unit,
        "minute",
    ) || is_text(unit, "minutes") {
        Some(60)
    } else if is_text(unit, "h") || is_text(unit, "hr") || is_text(unit, "hrs") || is_text(
        unit,
        "hour",
    ) || is_text(unit, "hours") {
        Some(3600)
    } else if is_text(unit, "d") || is_text(unit, "day") || is_text(unit, "days") {
        Some(86400)
    } else if is_text(unit, "w") || is_text(unit, "week") || is_text(unit, "weeks") {
        Some(604800)
    } else {
        None
    }
}

proof fn lemma_digits_grow(digits: Seq<char>, k: int)
    requires
        0 <= k < digits.len(),
    ensures
        digits_value(digits.take(k)) <= digits_value(digits),
    decreases digits.len() - k,
{
    if k + 1 < digits.len() {
        lemma_digits_grow(digits, k + 1);
    } else {
        assert(digits.take(k + 1) =~= digits);
    }
    assert(digits.take(k + 1).drop_last() =~= digits.take(k));
    assert(digits_value(digits.take(k + 1)) >= digits_value(digits.take(k))) by {
        assert(digits_value(digits.take(k + 1)) == digits_value(digits.take(k)) * 10 + (digits[k]
            as u32 - '0' as u32) as nat);
    }
}

/// Reads a run of decimal digits as a number that fits 64 bits with a sign.
fn number_of(digits: &Vec<char>) -> (r: Option<i64>)
    requires
        forall|i: int| 0 <= i < digits@.len() ==> is_digit(#[trigger] digits@[i]),
    ensures
        match r {
            Some(v) => v == digits_value(digits@),
            None => digits_value(digits@) > i64::MAX,
        },
{
    let mut value: i64 = 0;
    let mut i: usize = 0;
    while i < digits.len()
        invariant
            i <= digits@.len(),
            0 <= value,
            value == digits_value(digits@.take(i as int)),
            forall|k: int| 0 <= k < digits@.len() ==> is_digit(#[trigger] digits@[k]),
        decreases digits@.len() - i,
    {
        let c = digits[i];
        assert(is_digit(digits@[i as int]));
        let d: i64 = (c as u32 - '0' as u32) as i64;
        proof {
            assert(digits@.take(i + 1).drop_last() =~= digits@.take(i as int));
            assert(digits@.take(i + 1).last() == c);
        }
        if value > (i64::MAX - d) / 10 {
            proof {
                assert(digits_value(digits@.take(i + 1)) > i64::MAX);
                if i + 1 < digits@.len() {
                    lemma_digits_grow(digits@, i + 1);
                } else {
                    assert(digits@.take(i + 1) =~= digits@);
                }
            }
            return None;
        }
        value = value * 10 + d;
        i += 1;
    }
    proof {
        assert(digits@.take(digits@.len() as int) =~= digits@);
    }
    Some(value)
}

proof fn lemma_digit_run(s: Seq<char>, n: int)
    requires
        n == digits_len(s),
    ensures
        0 <= n <= s.len(),
        forall|i: int| 0 <= i < n ==> is_digit(#[trigger] s[i]),
    decreases s.len(),
{
    if s.len() > 0 && is_digit(s[0]) {
        lemma_digit_run(s.drop_first(), n - 1);
        assert forall|i: int| 0 <= i < n implies is_digit(#[trigger] s[i]) by {
            if i > 0 {
                assert(s.drop_first()[i - 1] == s[i]);
            }
        }
    }
}

/// Parses a trigger time at the instant `now`: a relative offset such as
/// `+30m`, `+2h`, `+1d` or `+1w`, or an absolute `2026-01-25 15:00`, which
/// is read as UTC.
pub fn parse_trigger_time_at(input: &str, now: i64) -> (r: Result<i64, String>)
    ensures
        instant_view(r) == trigger_time(input@, now as int),
{
    let whole = trim(&chars_of(input));
    if starts_with(&whole, &chars_of("+")) {
        let total = whole.len();
        assert(total >= 1) by {
            reveal_strlit("+");
        }
        let rest = slice_of(&whole, 1, total);
        let rest_text = string_of(&rest);
        if rest_text.as_str().as_bytes().len() < 2 {
            return Err(quoted_fault("Invalid relative time: '", &whole, "'"));
        }
        let n = count_digits(&rest);
        if n == 0 {
            return Err(quoted_fault("Invalid number in '", &whole, "'"));
        }
        let digits = slice_of(&rest, 0, n);
        proof {
            lemma_digit_run(rest@, n as int);
        }
        let number = match number_of(&digits) {
            Some(v) => v,
            None => {
                return Err(quoted_fault("Invalid number in '", &whole, "'"));
            },
        };
        let unit = slice_of(&rest, n, rest.len());
        let seconds = match unit_of(&unit) {
            Some(s) => s,
            None => {
                return Err(quoted_fault("Unknown unit '", &unit, "'. Use m/h/d/w"));
            },
        };
        assert(0 <= (number as int) * (seconds as int) <= 0x7fff_ffff_ffff_ffff * 604800)
            by (nonlinear_arith)
            requires
                0 <= number <= 0x7fff_ffff_ffff_ffff,
                0 < seconds <= 604800,
        ;
        let offset: i128 = (number as i128) * (seconds as i128);
        let at: i128 = now as i128 + offset;
        if at < MIN_INSTANT as i128 || at > MAX_INSTANT as i128 {
            return Err(quoted_fault("Time out of range in '", &whole, "'"));
        }
        Ok(at as i64)
    } else {
        let mut dated = whole;
        push_str(&mut dated, UTC_OFFSET);
        let text = string_of(&dated);
        match parse_instant(text.as_str(), MINUTE_FORMAT) {
            Ok(at) => Ok(at),
            Err(e) => {
                let mut buf: Vec<char> = Vec::new();
                push_str(&mut buf, "Invalid date format: ");
                push_str(&mut buf, e.as_str());
                push_str(&mut buf, ". Use YYYY-MM-DD HH:MM");
                Err(string_of(&buf))
            },
        }
    }
}

/// Parses a trigger time at the present instant. See [`parse_trigger_time_at`].
pub fn parse_trigger_time(input: &str) -> (r: Result<i64, String>)
    ensures
        exists|now: int| instant_view(r) == trigger_time(input@, now),
{
    let now = crate::clock::utc_now();
    let r = parse_trigger_time_at(input, now);
    assert(instant_view(r) == trigger_time(input@, now as int));
    r
}

/// The complaint of the schedule parser about `expr`, if it has one.
pub uninterp spec fn cron_error(expr: Seq<char>) -> Option<Seq<char>>;

/// The first instant after `after` that the schedule `expr` names, if the
/// schedule is valid and names one.
pub uninterp spec fn cron_next(expr: Seq<char>, after: int) -> Option<int>;

/// Asks the schedule parser what is wrong with `expr`.
///
/// Trusted: calls `cron::Schedule::from_str` and hands back the text of its
/// error, which depends on the expression alone and is named by [`cron_error`].
#[verifier::external_body]
fn cron_fault(expr: &str) -> (r: Option<String>)
    ensures
        crate::engine::opt_text(r) == cron_error(expr@),
{
    match <cron::Schedule as std::str::FromStr>::from_str(expr) {
        Ok(_) => None,
        Err(e) => Some(e.to_string()),
    }
}

/// Asks the schedule for its first instant after `after`.
///
/// Trusted: parses the schedule with `cron::Schedule::from_str`, converts
/// `after` with `chrono::DateTime::from_timestamp` and takes the first item
/// of `Schedule::after`. The result depends on the arguments alone and is
/// named by [`cron_next`]. Instants outside the years 0 to 9999 are left
/// out, since the search adds a second to its start.
#[verifier::external_body]
fn cron_after(expr: &str, after: i64) -> (r: Option<i64>)
    requires
        MIN_INSTANT <= after <= MAX_INSTANT,
    ensures
        cron_next(expr@, after as int) == match r {
            Some(t) => Some(t as int),
            None => None,
        },
{
    let schedule = <cron::Schedule as std::str::FromStr>::from_str(expr).ok()?;
    let start = chrono::DateTime::from_timestamp(after, 0)?;
    schedule.after(&start).next().map(|at| at.timestamp())
}

/// Validates a schedule expression.
pub fn validate_cron(expr: &str) -> (r: Result<(), String>)
    ensures
        crate::engine::check_view(r) == match cron_error(expr@) {
            None => Ok(()),
            Some(e) => Err("Invalid cron: "@ + e),
        },
{
    match cron_fault(expr) {
        None => Ok(()),
        Some(e) => Err(concat("Invalid cron: ", e.as_str())),
    }
}

/// What the next trigger of the schedule `expr` after `after` is.
pub open spec fn next_trigger(expr: Seq<char>, after: int) -> Result<int, Seq<char>> {
    match cron_error(expr) {
        Some(e) => Err("Invalid cron: "@ + e),
        None => if MIN_INSTANT <= after <= MAX_INSTANT {
            match cron_next(expr, after) {
                Some(t) => Ok(t),
                None => Err("No future occurrence for cron"@),
            }
        } else {
            Err("No future occurrence for cron"@)
        },
    }
}

/// The next trigger time of a schedule after the instant `after`.
pub fn next_cron_trigger(expr: &str, after: i64) -> (r: Result<i64, String>)
    ensures
        instant_view(r) == next_trigger(expr@, after as int),
{
    match cron_fault(expr) {
        Some(e) => Err(concat("Invalid cron: ", e.as_str())),
        None => {
            if after < MIN_INSTANT || after > MAX_INSTANT {
                return Err("No future occurrence for cron".to_owned());
            }
            match cron_after(expr, after) {
                Some(t) => Ok(t),
                None => Err("No future occurrence for cron".to_owned()),
            }
        },
    }
}

impl Reminder {
    /// Whether the reminder fires at the instant `now`.
    pub open spec fn is_due(self, now: int) -> bool {
        self.active && self.trigger_at <= now
    }

    /// Tests whether the reminder fires at the instant `now`.
    pub fn due(&self, now: i64) -> (r: bool)
        ensures
            r == self.is_due(now as int),
    {
        self.active && self.trigger_at <= now
    }

    /// The reminder after it fired at `now`. `next` is the next instant of
    /// its schedule, where it has a schedule that names one.
    pub open spec fn fired(self, now: i64, next: Option<i64>) -> Reminder {
        match (self.repeat_cron, next) {
            (Some(_), Some(at)) => Reminder {
                trigger_at: at,
                last_triggered_at: Some(now),
                ..self
            },
            _ => Reminder { active: false, last_triggered_at: Some(now), ..self },
        }
    }

    /// Settles the reminder after it fired at `now`. A recurring reminder
    /// moves on to `next`, the next instant of its schedule; a one-shot
    /// reminder, or a recurring one whose schedule gave no next instant,
    /// is retired.
    pub fn settle(self, now: i64, next: Option<i64>) -> (after: Reminder)
        ensures
            after == self.fired(now, next),
    {
        let recurring = self.repeat_cron.is_some();
        match next {
            Some(at) => if recurring {
                Reminder { trigger_at: at, last_triggered_at: Some(now), ..self }
            } else {
                Reminder { active: false, last_triggered_at: Some(now), ..self }
            },
            None => Reminder { active: false, last_triggered_at: Some(now), ..self },
        }
    }

    /// The next instant of the reminder's schedule after `now`, if it has a
    /// schedule and the schedule names one.
    pub open spec fn upcoming(self, now: int) -> Option<i64> {
        match self.repeat_cron {
            Some(expr) => match next_trigger(expr@, now) {
                Ok(at) => if i64::MIN <= at <= i64::MAX {
                    Some(at as i64)
                } else {
                    None
                },
                Err(_) => None,
            },
            None => None,
        }
    }

    /// Settles the reminder after it fired at `now`: a recurring reminder is
    /// moved to the next instant of its schedule after `now`; a one-shot
    /// reminder, and a recurring one whose schedule fails, is retired.
    pub fn fire(self, now: i64) -> (after: Reminder)
        ensures
            after == self.fired(now, self.upcoming(now as int)),
    {
        let next = match &self.repeat_cron {
            Some(expr) => match next_cron_trigger(expr.as_str(), now) {
                Ok(at) => Some(at),
                Err(_) => None,
            },
            None => None,
        };
        self.settle(now, next)
    }
}

/// A reminder that was retired is never due again: a one-shot reminder
/// fires once, whenever it is looked at afterwards.
pub proof fn lemma_one_shot_fires_once(reminder: Reminder, now: i64, later: int)
    requires
        reminder.repeat_cron is None,
    ensures
        !reminder.fired(now, None).is_due(later),
        !reminder.fired(now, None).active,
        reminder.fired(now, None).last_triggered_at == Some(now),
{
}

/// A recurring reminder whose schedule names a next instant stays active
/// and moves to that instant.
pub proof fn lemma_recurring_moves_on(reminder: Reminder, now: i64, next: i64)
    requires
        reminder.repeat_cron is Some,
    ensures
        reminder.fired(now, Some(next)).active == reminder.active,
        reminder.fired(now, Some(next)).trigger_at == next,
        reminder.fired(now, Some(next)).last_triggered_at == Some(now),
{
}

/// The trigger times of `reminders`.
pub open spec fn trigger_times(reminders: Seq<Reminder>) -> Seq<i64> {
    reminders.map_values(|r: Reminder| r.trigger_at)
}

/// Whether `order` holds the positions of the reminders that fire at
/// `now`, each once and by trigger time; reminders with the same trigger
/// time keep their order.
pub open spec fn is_firing_order(reminders: Seq<Reminder>, now: int, order: Seq<usize>) -> bool {
    &&& forall|a: int|
        0 <= a < order.len() ==> (#[trigger] order[a]) < reminders.len()
            && reminders[order[a] as int].is_due(now)
    &&& forall|p: int| 0 <= p < reminders.len() && reminders[p].is_due(now) ==> #[trigger] holds(order, p)
    &&& forall|a: int, b: int|
        0 <= a < b < order.len() ==> instant_before(
            trigger_times(reminders),
            #[trigger] order[a] as int,
            #[trigger] order[b] as int,
        )
}

/// The positions of the reminders that fire at `now`, in the order in
/// which they are delivered: by trigger time.
pub fn firing_order(reminders: &Vec<Reminder>, now: i64) -> (order: Vec<usize>)
    ensures
        is_firing_order(reminders@, now as int, order@),
{
    let mut keys: Vec<i64> = Vec::new();
    let mut i: usize = 0;
    while i < reminders.len()
        invariant
            i <= reminders@.len(),
            keys@ == trigger_times(reminders@).take(i as int),
        decreases reminders@.len() - i,
    {
        keys.push(reminders[i].trigger_at);
        assert(keys@ =~= trigger_times(reminders@).take(i + 1));
        i += 1;
    }
    assert(keys@ =~= trigger_times(reminders@));
    let all = instant_order(&keys);
    let mut order: Vec<usize> = Vec::new();
    let mut a: usize = 0;
    while a < all.len()
        invariant
            a <= all@.len(),
            keys@ == trigger_times(reminders@),
            is_instant_order(keys@, all@),
            forall|x: int|
                0 <= x < order@.len() ==> (#[trigger] order@[x]) < reminders@.len()
                    && reminders@[order@[x] as int].is_due(now as int),
            forall|x: int|
                0 <= x < order@.len() ==> exists|y: int| 0 <= y < a && all@[y] == #[trigger] order@[x],
            forall|y: int|
                0 <= y < a && reminders@[all@[y] as int].is_due(now as int) ==> holds(
                    order@,
                    #[trigger] all@[y] as int,
                ),
            forall|x: int, y: int|
                0 <= x < y < order@.len() ==> instant_before(
                    keys@,
                    #[trigger] order@[x] as int,
                    #[trigger] order@[y] as int,
                ),
        decreases all@.len() - a,
    {
        let p = all[a];
        let ghost before = order@;
        if reminders[p].due(now) {
            order.push(p);
            proof {
                assert forall|x: int, y: int| 0 <= x < y < order@.len() implies instant_before(
                    keys@,
                    #[trigger] order@[x] as int,
                    #[trigger] order@[y] as int,
                ) by {
                    if y == before.len() {
                        let from = choose|from: int| 0 <= from < a && all@[from] == before[x];
                        assert(instant_before(keys@, all@[from] as int, all@[a as int] as int));
                    }
                }
                assert(order@[before.len() as int] == p);
            }
        }
        proof {
            assert forall|y: int|
                0 <= y < a + 1 && reminders@[all@[y] as int].is_due(now as int) implies holds(
                order@,
                #[trigger] all@[y] as int,
            ) by {
                if y < a {
                    assert(holds(before, all@[y] as int));
                    let x = choose|x: int| 0 <= x < before.len() && before[x] == all@[y];
                    assert(order@[x] == all@[y]);
                } else {
                    assert(order@[before.len() as int] == all@[y]);
                }
            }
            assert forall|x: int| 0 <= x < order@.len() implies exists|y: int|
                0 <= y < a + 1 && all@[y] == #[trigger] order@[x] by {
                if x < before.len() {
                    let y = choose|y: int| 0 <= y < a && all@[y] == before[x];
                    assert(all@[y] == order@[x]);
                } else {
                    assert(all@[a as int] == order@[x]);
                }
            }
        }
        a += 1;
    }
    proof {
        assert forall|p: int|
            0 <= p < reminders@.len() && reminders@[p].is_due(now as int) implies #[trigger] holds(
            order@,
            p,
        ) by {
            assert(holds(all@, p));
            let y = choose|y: int| 0 <= y < all@.len() && all@[y] == p;
            assert(holds(order@, all@[y] as int));
        }
    }
    order
}

} // verus!
