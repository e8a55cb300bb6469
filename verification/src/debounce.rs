//! The debounce timer that coalesces bursts of messages into batches.
//!
//! Every trigger restarts the timer; the callback runs once the timer has
//! run out without a further trigger. This module decides when that is;
//! the caller owns the clock and waits.

use vstd::prelude::*;

verus! {

/// The debounce timer. Instants are milliseconds on the caller's clock.
pub struct Debouncer {
    delay_ms: u64,
    deadline: Option<u64>,
}

/// The state of a timer: the instant at which it runs out, if it is running.
pub struct DebouncerView {
    pub delay: int,
    pub deadline: Option<int>,
}

impl View for Debouncer {
    type V = DebouncerView;

    closed spec fn view(&self) -> DebouncerView {
        DebouncerView {
            delay: self.delay_ms as int,
            deadline: match self.deadline {
                Some(d) => Some(d as int),
                None => None,
            },
        }
    }
}

/// What happens to a timer.
pub enum Event {
    /// A trigger at this instant.
    Trigger(int),
    /// The caller looks at the timer at this instant.
    Poll(int),
}

/// The instant of an event.
pub open spec fn instant(event: Event) -> int {
    match event {
        Event::Trigger(t) => t,
        Event::Poll(t) => t,
    }
}

/// The deadline after an event, and whether the callback runs at it.
pub open spec fn step(delay: int, deadline: Option<int>, event: Event) -> (Option<int>, bool) {
    match event {
        Event::Trigger(t) => (Some(t + delay), false),
        Event::Poll(t) => match deadline {
            Some(d) => if d <= t {
                (None, true)
            } else {
                (deadline, false)
            },
            None => (None, false),
        },
    }
}

/// The deadline after the events `events`.
pub open spec fn deadline_after(delay: int, deadline: Option<int>, events: Seq<Event>) -> Option<
    int,
>
    decreases events.len(),
{
    if events.len() == 0 {
        deadline
    } else {
        step(delay, deadline_after(delay, deadline, events.drop_last()), events.last()).0
    }
}

/// How often the callback runs during the events `events`.
pub open spec fn fires(delay: int, deadline: Option<int>, events: Seq<Event>) -> nat
    decreases events.len(),
{
    if events.len() == 0 {
        0
    } else {
        let before = events.drop_last();
        fires(delay, deadline, before) + if step(
            delay,
            deadline_after(delay, deadline, before),
            events.last(),
        ).1 {
            1nat
        } else {
            0nat
        }
    }
}

impl Debouncer {
    /// A timer that waits `delay_ms` milliseconds after the last trigger.
    pub fn new(delay_ms: u64) -> (timer: Self)
        ensures
            timer@ == (DebouncerView { delay: delay_ms as int, deadline: None }),
    {
        Self { delay_ms, deadline: None }
    }

    /// Whether the timer is running.
    pub fn is_active(&self) -> (r: bool)
        ensures
            r == self@.deadline is Some,
    {
        self.deadline.is_some()
    }

    /// Starts the timer, or starts it anew if it is running.
    pub fn trigger(&mut self, now_ms: u64)
        requires
            now_ms + old(self)@.delay <= u64::MAX,
        ensures
            final(self)@.delay == old(self)@.delay,
            final(self)@.deadline == step(
                old(self)@.delay,
                old(self)@.deadline,
                Event::Trigger(now_ms as int),
            ).0,
    {
        self.deadline = Some(now_ms + self.delay_ms);
    }

    /// Looks at the timer. Answers true, once, when the timer has run out:
    /// the callback is due.
    pub fn poll(&mut self, now_ms: u64) -> (due: bool)
        ensures
            final(self)@.delay == old(self)@.delay,
            (final(self)@.deadline, due) == step(
                old(self)@.delay,
                old(self)@.deadline,
                Event::Poll(now_ms as int),
            ),
    {
        match self.deadline {
            Some(d) => if d <= now_ms {
                self.deadline = None;
                true
            } else {
                false
            },
            None => false,
        }
    }

    /// How long the caller may sleep before the timer runs out, if it is running.
    pub fn remaining(&self, now_ms: u64) -> (wait: Option<u64>)
        ensures
            wait == match self@.deadline {
                Some(d) => Some(
                    if d <= now_ms {
                        0u64
                    } else {
                        (d - now_ms) as u64
                    },
                ),
                None => None,
            },
    {
        match self.deadline {
            Some(d) => if d <= now_ms {
                Some(0)
            } else {
                Some(d - now_ms)
            },
            None => None,
        }
    }
}

/// Whether every event of `events` happens from `from` on and before `until`.
pub open spec fn within(events: Seq<Event>, from: int, until: int) -> bool {
    forall|i: int| 0 <= i < events.len() ==> from <= instant(#[trigger] events[i]) < until
}

/// Whether one of `events` is a trigger.
pub open spec fn has_trigger(events: Seq<Event>) -> bool {
    exists|i: int| 0 <= i < events.len() && (#[trigger] events[i]) is Trigger
}

/// Whether every event of `events` is a look at the timer.
pub open spec fn only_polls(events: Seq<Event>) -> bool {
    forall|i: int| 0 <= i < events.len() ==> (#[trigger] events[i]) is Poll
}

/// During a burst that is shorter than the delay, the callback does not
/// run, and a timer that was triggered runs out after the burst.
pub proof fn lemma_burst_is_quiet(delay: int, burst: Seq<Event>, start: int)
    requires
        delay > 0,
        within(burst, start, start + delay),
    ensures
        fires(delay, None, burst) == 0,
        match deadline_after(delay, None, burst) {
            Some(d) => has_trigger(burst) && d >= start + delay,
            None => !has_trigger(burst),
        },
    decreases burst.len(),
{
    if burst.len() > 0 {
        let before = burst.drop_last();
        assert forall|i: int| 0 <= i < before.len() implies start <= instant(
            #[trigger] before[i],
        ) < start + delay by {
            assert(before[i] == burst[i]);
        }
        lemma_burst_is_quiet(delay, before, start);
        let last = burst.last();
        assert(start <= instant(burst[burst.len() - 1]) < start + delay);
        if has_trigger(before) {
            let i = choose|i: int| 0 <= i < before.len() && (#[trigger] before[i]) is Trigger;
            assert(burst[i] is Trigger);
        }
        if last is Trigger {
            assert(burst[burst.len() - 1] is Trigger);
        } else if has_trigger(burst) {
            let i = choose|i: int| 0 <= i < burst.len() && (#[trigger] burst[i]) is Trigger;
            assert(before[i] is Trigger);
        }
    }
}

/// A timer that is not running stays silent while it is only looked at.
pub proof fn lemma_idle_is_quiet(delay: int, polls: Seq<Event>)
    requires
        only_polls(polls),
    ensures
        fires(delay, None, polls) == 0,
        deadline_after(delay, None, polls) is None,
    decreases polls.len(),
{
    if polls.len() > 0 {
        let before = polls.drop_last();
        assert forall|i: int| 0 <= i < before.len() implies (#[trigger] before[i]) is Poll by {
            assert(before[i] == polls[i]);
        }
        lemma_idle_is_quiet(delay, before);
        assert(polls[polls.len() - 1] is Poll);
    }
}

proof fn lemma_fires_concat(delay: int, deadline: Option<int>, a: Seq<Event>, b: Seq<Event>)
    ensures
        deadline_after(delay, deadline, a + b) == deadline_after(
            delay,
            deadline_after(delay, deadline, a),
            b,
        ),
        fires(delay, deadline, a + b) == fires(delay, deadline, a) + fires(
            delay,
            deadline_after(delay, deadline, a),
            b,
        ),
    decreases b.len(),
{
    if b.len() == 0 {
        assert(a + b =~= a);
    } else {
        assert((a + b).drop_last() =~= a + b.drop_last());
        assert((a + b).last() == b.last());
        lemma_fires_concat(delay, deadline, a, b.drop_last());
    }
}

/// Triggers within an interval shorter than the delay lead to exactly one
/// run of the callback: none during the burst, one at the first look at
/// the timer after it has run out, and none afterwards, however often the
/// timer is looked at.
pub proof fn lemma_burst_fires_once(
    delay: int,
    burst: Seq<Event>,
    start: int,
    quiet: int,
    later: Seq<Event>,
)
    requires
        delay > 0,
        within(burst, start, start + delay),
        has_trigger(burst),
        deadline_after(delay, None, burst) matches Some(d) && quiet >= d,
        only_polls(later),
    ensures
        fires(delay, None, burst + seq![Event::Poll(quiet)] + later) == 1,
{
    lemma_burst_is_quiet(delay, burst, start);
    let expiry = seq![Event::Poll(quiet)];
    let after_burst = deadline_after(delay, None, burst);
    assert(expiry.drop_last() =~= Seq::<Event>::empty());
    assert(expiry.last() == Event::Poll(quiet));
    assert(deadline_after(delay, after_burst, expiry.drop_last()) == after_burst);
    assert(fires(delay, after_burst, expiry.drop_last()) == 0);
    assert(step(delay, after_burst, Event::Poll(quiet)) == (None::<int>, true));
    assert(deadline_after(delay, after_burst, expiry) is None);
    assert(fires(delay, after_burst, expiry) == 1);
    lemma_fires_concat(delay, None, burst, expiry);
    lemma_idle_is_quiet(delay, later);
    lemma_fires_concat(delay, None, burst + expiry, later);
}

} // verus!
