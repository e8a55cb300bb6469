//! One turn of the dispatch engine as a state machine.
//!
//! A turn presents a batch to the reasoner and then loops: the intents of
//! the reasoner's response are executed in order, and unless the response
//! ended cleanly the results go back to the reasoner for another round.
//! After every response that reports a compaction, the next frame sent is a
//! restoration payload.

use crate::bridge::{Response, ToolCallWithId, ToolResult};
use crate::engine::MAX_ITERATIONS;
use vstd::prelude::*;

verus! {

/// Where a turn stands.
#[derive(Clone, Copy, Debug, PartialEq, Eq, Structural)]
pub enum Phase {
    /// No batch has been handed in yet.
    Idle,
    /// A frame went to the reasoner; its response is awaited.
    AwaitReply,
    /// A restoration payload went to the reasoner; its response is awaited.
    AwaitRestored,
    /// A tool is being executed; its result is awaited.
    Running,
    /// The turn is over.
    Finished,
}

/// How a turn ended.
#[derive(Clone, Copy, Debug, PartialEq, Eq, Structural)]
pub enum Ending {
    /// The batch was empty: nothing was sent.
    Empty,
    /// The reasoner called `done` and no result needed its attention.
    Clean,
    /// The iteration cap was reached.
    CapReached,
    /// The bridge failed, or an event came that the turn did not wait for.
    Aborted,
}

/// What the caller is to do next.
#[derive(Debug)]
pub enum Action {
    /// Send the batch's payload, with its first image if it has one.
    SendBatch,
    /// Send the restoration payload.
    SendRestoration,
    /// Send the results of this iteration as one frame.
    SendToolResults,
    /// Send the error result that demands at least one tool call.
    DemandTool,
    /// Send a follow-up frame with the image of the result at this position.
    ShowImage(usize),
    /// Execute this intent and hand back its result.
    Execute(ToolCallWithId),
    /// Stop: the turn is over.
    Finish(Ending),
}

/// The state of a turn.
pub struct TurnView {
    pub phase: Phase,
    /// Iterations of the tool-call loop that have begun.
    pub iterations: nat,
    /// Whether the response being worked on carries `done`.
    pub has_done: bool,
    /// Intents of that response that are still to be executed, in order.
    pub pending: Seq<ToolCallWithId>,
    /// Results of the current iteration, in the order of the intents.
    pub results: Seq<ToolResult>,
    /// Results before this position have had their image shown.
    pub image_cursor: nat,
}

/// The result recorded for the terminal sentinel.
pub open spec fn neutral(call: ToolCallWithId) -> ToolResult {
    ToolResult { tool_use_id: call.id, content: None, is_error: false, image: None }
}

/// Whether the reasoner need not see the result.
pub open spec fn is_quiet(result: ToolResult) -> bool {
    !result.is_error && result.content is None && result.image is None
}

/// Whether every result is quiet.
pub open spec fn all_quiet(results: Seq<ToolResult>) -> bool {
    forall|i: int| 0 <= i < results.len() ==> is_quiet(#[trigger] results[i])
}

/// Whether one of the intents is the terminal sentinel.
pub open spec fn carries_done(calls: Seq<ToolCallWithId>) -> bool {
    exists|i: int| 0 <= i < calls.len() && (#[trigger] calls[i]).call.is_done()
}

/// The first position at or after `from` whose result carries an image,
/// or the number of results.
pub open spec fn next_image(results: Seq<ToolResult>, from: int) -> int
    decreases results.len() - from,
{
    if from < 0 || from >= results.len() {
        results.len() as int
    } else if results[from].image is Some {
        from
    } else {
        next_image(results, from + 1)
    }
}

/// The end of an iteration: a clean exit, or the results go to the reasoner.
pub open spec fn concluded(v: TurnView) -> (TurnView, Action) {
    if v.has_done && all_quiet(v.results) {
        (TurnView { phase: Phase::Finished, ..v }, Action::Finish(Ending::Clean))
    } else {
        (TurnView { phase: Phase::AwaitReply, image_cursor: 0, ..v }, Action::SendToolResults)
    }
}

/// Works through the pending intents: the terminal sentinel gets its
/// neutral result, the first other intent is handed out for execution.
pub open spec fn advanced(v: TurnView) -> (TurnView, Action)
    decreases v.pending.len(),
{
    if v.pending.len() == 0 {
        concluded(v)
    } else if v.pending[0].call.is_done() {
        advanced(
            TurnView {
                pending: v.pending.drop_first(),
                results: v.results.push(neutral(v.pending[0])),
                ..v
            },
        )
    } else {
        (
            TurnView { phase: Phase::Running, pending: v.pending.drop_first(), ..v },
            Action::Execute(v.pending[0]),
        )
    }
}

/// Begins the next iteration, unless the cap is reached.
pub open spec fn begun(v: TurnView) -> (TurnView, Action) {
    if v.iterations >= MAX_ITERATIONS {
        (TurnView { phase: Phase::Finished, ..v }, Action::Finish(Ending::CapReached))
    } else {
        let fresh = TurnView {
            iterations: v.iterations + 1,
            results: Seq::empty(),
            image_cursor: 0,
            ..v
        };
        if v.pending.len() == 0 {
            (TurnView { phase: Phase::AwaitReply, ..fresh }, Action::DemandTool)
        } else {
            advanced(fresh)
        }
    }
}

/// Goes on after a response that was not compacted, or after a restoration:
/// images of the last results are shown first, then the next iteration begins.
pub open spec fn proceeded(v: TurnView) -> (TurnView, Action) {
    let at = next_image(v.results, v.image_cursor as int);
    if at < v.results.len() {
        (
            TurnView { phase: Phase::AwaitReply, image_cursor: (at + 1) as nat, ..v },
            Action::ShowImage(at as usize),
        )
    } else {
        begun(TurnView { image_cursor: v.results.len(), ..v })
    }
}

/// The turn aborted.
pub open spec fn aborted(v: TurnView) -> (TurnView, Action) {
    (TurnView { phase: Phase::Finished, ..v }, Action::Finish(Ending::Aborted))
}

/// The state and action after a batch of `batch_len` messages was handed in.
pub open spec fn started(v: TurnView, batch_len: nat) -> (TurnView, Action) {
    if v.phase != Phase::Idle {
        aborted(v)
    } else if batch_len == 0 {
        (TurnView { phase: Phase::Finished, ..v }, Action::Finish(Ending::Empty))
    } else {
        (TurnView { phase: Phase::AwaitReply, ..v }, Action::SendBatch)
    }
}

/// The state and action after the reasoner's response to the last frame.
pub open spec fn responded(v: TurnView, response: Response) -> (TurnView, Action) {
    if v.phase == Phase::AwaitReply {
        let held = TurnView {
            pending: response.tool_calls@,
            has_done: carries_done(response.tool_calls@),
            ..v
        };
        if response.compacted {
            (TurnView { phase: Phase::AwaitRestored, ..held }, Action::SendRestoration)
        } else {
            proceeded(held)
        }
    } else if v.phase == Phase::AwaitRestored {
        if response.compacted {
            (v, Action::SendRestoration)
        } else {
            proceeded(v)
        }
    } else {
        aborted(v)
    }
}

/// The state and action after the tool that was handed out gave `result`.
pub open spec fn executed(v: TurnView, result: ToolResult) -> (TurnView, Action) {
    if v.phase == Phase::Running {
        advanced(TurnView { results: v.results.push(result), ..v })
    } else {
        aborted(v)
    }
}

/// A turn of the dispatch engine.
pub struct Turn {
    phase: Phase,
    iterations: usize,
    has_done: bool,
    /// The pending intents, the next one last.
    stack: Vec<ToolCallWithId>,
    results: Vec<ToolResult>,
    image_cursor: usize,
}

impl View for Turn {
    type V = TurnView;

    closed spec fn view(&self) -> TurnView {
        TurnView {
            phase: self.phase,
            iterations: self.iterations as nat,
            has_done: self.has_done,
            pending: self.stack@.reverse(),
            results: self.results@,
            image_cursor: self.image_cursor as nat,
        }
    }
}

proof fn lemma_pop_is_drop_first(stack: Seq<ToolCallWithId>)
    requires
        stack.len() > 0,
    ensures
        stack.reverse()[0] == stack.last(),
        stack.drop_last().reverse() == stack.reverse().drop_first(),
{
    assert(stack.drop_last().reverse() =~= stack.reverse().drop_first());
}

fn has_done_call(calls: &Vec<ToolCallWithId>) -> (r: bool)
    ensures
        r == carries_done(calls@),
{
    let mut i: usize = 0;
    while i < calls.len()
        invariant
            i <= calls@.len(),
            forall|k: int| 0 <= k < i ==> !(#[trigger] calls@[k]).call.is_done(),
        decreases calls@.len() - i,
    {
        if calls[i].call.done() {
            return true;
        }
        i += 1;
    }
    false
}

fn reversed(calls: Vec<ToolCallWithId>) -> (stack: Vec<ToolCallWithId>)
    ensures
        stack@.reverse() == calls@,
{
    let mut calls = calls;
    let mut stack: Vec<ToolCallWithId> = Vec::new();
    let ghost all = calls@;
    while calls.len() > 0
        invariant
            calls@.len() + stack@.len() == all.len(),
            calls@ == all.take(calls@.len() as int),
            forall|k: int|
                0 <= k < stack@.len() ==> #[trigger] stack@[k] == all[all.len() - 1 - k],
        decreases calls@.len(),
    {
        let ghost before = calls@;
        let call = calls.pop().unwrap();
        stack.push(call);
        assert(calls@ =~= all.take(calls@.len() as int));
    }
    assert(stack@.reverse() =~= all);
    stack
}

impl Turn {
    /// Whether the state can arise: the cap is kept and the image cursor
    /// lies within the results.
    pub closed spec fn wf(&self) -> bool {
        &&& self.iterations <= MAX_ITERATIONS
        &&& self.image_cursor <= self.results@.len()
    }

    /// A turn that waits for its batch.
    pub fn new() -> (turn: Self)
        ensures
            turn.wf(),
            turn@ == (TurnView {
                phase: Phase::Idle,
                iterations: 0,
                has_done: false,
                pending: Seq::empty(),
                results: Seq::empty(),
                image_cursor: 0,
            }),
    {
        let turn = Self {
            phase: Phase::Idle,
            iterations: 0,
            has_done: false,
            stack: Vec::new(),
            results: Vec::new(),
            image_cursor: 0,
        };
        assert(turn.stack@.reverse() =~= Seq::empty());
        turn
    }

    /// Where the turn stands.
    pub fn phase(&self) -> (phase: Phase)
        ensures
            phase == self@.phase,
    {
        self.phase
    }

    /// Iterations of the tool-call loop that have begun.
    pub fn iterations(&self) -> (n: usize)
        ensures
            n == self@.iterations,
    {
        self.iterations
    }

    /// The results of the current iteration.
    pub fn results(&self) -> (results: &Vec<ToolResult>)
        ensures
            results@ == self@.results,
    {
        &self.results
    }

    fn abort(&mut self) -> (action: Action)
        requires
            old(self).wf(),
        ensures
            final(self).wf(),
            (final(self)@, action) == aborted(old(self)@),
    {
        self.phase = Phase::Finished;
        Action::Finish(Ending::Aborted)
    }

    /// Starts the turn on a batch of `batch_len` messages. An empty batch
    /// ends the turn at once.
    pub fn start(&mut self, batch_len: usize) -> (action: Action)
        requires
            old(self).wf(),
        ensures
            final(self).wf(),
            (final(self)@, action) == started(old(self)@, batch_len as nat),
    {
        if self.phase != Phase::Idle {
            self.abort()
        } else if batch_len == 0 {
            self.phase = Phase::Finished;
            Action::Finish(Ending::Empty)
        } else {
            self.phase = Phase::AwaitReply;
            Action::SendBatch
        }
    }

    fn conclude(&mut self) -> (action: Action)
        requires
            old(self).wf(),
        ensures
            final(self).wf(),
            (final(self)@, action) == concluded(old(self)@),
    {
        let mut quiet = true;
        let mut i: usize = 0;
        while i < self.results.len()
            invariant
                i <= self.results@.len(),
                *self == *old(self),
                quiet == all_quiet(self.results@.take(i as int)),
            decreases self.results@.len() - i,
        {
            let ghost seen = self.results@.take(i as int);
            let ghost now = self.results@.take(i + 1);
            let r = &self.results[i];
            let this_quiet = !r.is_error && r.content.is_none() && r.image.is_none();
            proof {
                assert(now[i as int] == self.results@[i as int]);
                if all_quiet(now) {
                    assert forall|k: int| 0 <= k < seen.len() implies is_quiet(
                        #[trigger] seen[k],
                    ) by {
                        assert(seen[k] == now[k]);
                    }
                }
                if all_quiet(seen) && this_quiet {
                    assert forall|k: int| 0 <= k < now.len() implies is_quiet(
                        #[trigger] now[k],
                    ) by {
                        if k < i {
                            assert(seen[k] == now[k]);
                        }
                    }
                }
            }
            quiet = quiet && this_quiet;
            i += 1;
        }
        proof {
            assert(self.results@.take(self.results@.len() as int) =~= self.results@);
        }
        if self.has_done && quiet {
            self.phase = Phase::Finished;
            Action::Finish(Ending::Clean)
        } else {
            self.phase = Phase::AwaitReply;
            self.image_cursor = 0;
            Action::SendToolResults
        }
    }

    fn advance(&mut self) -> (action: Action)
        requires
            old(self).wf(),
        ensures
            final(self).wf(),
            (final(self)@, action) == advanced(old(self)@),
    {
        while self.stack.len() > 0
            invariant
                self.wf(),
                advanced(self@) == advanced(old(self)@),
            decreases self.stack@.len(),
        {
            proof {
                lemma_pop_is_drop_first(self.stack@);
            }
            let ghost before = self@;
            let call = self.stack.pop().unwrap();
            if call.call.done() {
                self.results.push(
                    ToolResult {
                        tool_use_id: call.id,
                        content: None,
                        is_error: false,
                        image: None,
                    },
                );
                assert(self@ == (TurnView {
                    pending: before.pending.drop_first(),
                    results: before.results.push(neutral(before.pending[0])),
                    ..before
                }));
            } else {
                self.phase = Phase::Running;
                return Action::Execute(call);
            }
        }
        assert(self@.pending.len() == 0);
        self.conclude()
    }

    fn begin(&mut self) -> (action: Action)
        requires
            old(self).wf(),
        ensures
            final(self).wf(),
            (final(self)@, action) == begun(old(self)@),
    {
        if self.iterations >= MAX_ITERATIONS {
            self.phase = Phase::Finished;
            return Action::Finish(Ending::CapReached);
        }
        self.iterations = self.iterations + 1;
        self.results.clear();
        self.image_cursor = 0;
        if self.stack.len() == 0 {
            self.phase = Phase::AwaitReply;
            Action::DemandTool
        } else {
            self.advance()
        }
    }

    fn proceed(&mut self) -> (action: Action)
        requires
            old(self).wf(),
        ensures
            final(self).wf(),
            (final(self)@, action) == proceeded(old(self)@),
    {
        let mut at: usize = self.image_cursor;
        while at < self.results.len() && self.results[at].image.is_none()
            invariant
                *self == *old(self),
                self.image_cursor <= at <= self.results@.len(),
                next_image(self.results@, at as int) == next_image(
                    self.results@,
                    self.image_cursor as int,
                ),
            decreases self.results@.len() - at,
        {
            at += 1;
        }
        if at < self.results.len() {
            self.phase = Phase::AwaitReply;
            self.image_cursor = at + 1;
            Action::ShowImage(at)
        } else {
            self.image_cursor = self.results.len();
            self.begin()
        }
    }

    /// Takes the reasoner's response to the last frame. A compacted
    /// response is followed by a restoration payload before anything else;
    /// its intents are kept and run once the restoration is answered.
    pub fn on_response(&mut self, response: Response) -> (action: Action)
        requires
            old(self).wf(),
        ensures
            final(self).wf(),
            (final(self)@, action) == responded(old(self)@, response),
    {
        if self.phase == Phase::AwaitReply {
            self.has_done = has_done_call(&response.tool_calls);
            self.stack = reversed(response.tool_calls);
            if response.compacted {
                self.phase = Phase::AwaitRestored;
                Action::SendRestoration
            } else {
                self.proceed()
            }
        } else if self.phase == Phase::AwaitRestored {
            if response.compacted {
                Action::SendRestoration
            } else {
                self.proceed()
            }
        } else {
            self.abort()
        }
    }

    /// Takes the result of the tool that was handed out for execution.
    pub fn on_result(&mut self, result: ToolResult) -> (action: Action)
        requires
            old(self).wf(),
        ensures
            final(self).wf(),
            (final(self)@, action) == executed(old(self)@, result),
    {
        if self.phase == Phase::Running {
            self.results.push(result);
            self.advance()
        } else {
            self.abort()
        }
    }

    /// The bridge failed: the turn is aborted and the batch counts as consumed.
    pub fn on_failure(&mut self) -> (action: Action)
        requires
            old(self).wf(),
        ensures
            final(self).wf(),
            (final(self)@, action) == aborted(old(self)@),
    {
        self.abort()
    }
}

/// Compaction recovery: after a response that reports a compaction, the
/// next frame is the restoration payload, whatever the response holds. The
/// intents of a compacted response to a batch or to results are kept, and
/// none of them is handed out before the restoration has been answered.
pub proof fn lemma_restoration_comes_first(v: TurnView, response: Response)
    requires
        response.compacted,
        v.phase == Phase::AwaitReply || v.phase == Phase::AwaitRestored,
    ensures
        responded(v, response).1 == Action::SendRestoration,
        responded(v, response).0.phase == Phase::AwaitRestored,
        responded(v, response).0.results == v.results,
        responded(v, response).0.iterations == v.iterations,
        v.phase == Phase::AwaitReply ==> responded(v, response).0.pending == response.tool_calls@,
        v.phase == Phase::AwaitRestored ==> responded(v, response).0.pending == v.pending,
{
}

/// An intent is handed out only in answer to a response that reports no
/// compaction, or to the result of the intent before it.
pub proof fn lemma_execute_after_restoration(v: TurnView, response: Response)
    requires
        responded(v, response).1 is Execute,
    ensures
        !response.compacted,
        responded(v, response).0.phase == Phase::Running,
{
    let held = TurnView {
        pending: response.tool_calls@,
        has_done: carries_done(response.tool_calls@),
        ..v
    };
    if v.phase == Phase::AwaitReply {
        lemma_begun_runs(TurnView { image_cursor: held.results.len(), ..held });
    } else if v.phase == Phase::AwaitRestored {
        lemma_begun_runs(TurnView { image_cursor: v.results.len(), ..v });
    }
}

proof fn lemma_advanced_runs(v: TurnView)
    ensures
        advanced(v).1 is Execute ==> advanced(v).0.phase == Phase::Running,
        advanced(v).0.iterations == v.iterations,
    decreases v.pending.len(),
{
    if v.pending.len() > 0 && v.pending[0].call.is_done() {
        lemma_advanced_runs(
            TurnView {
                pending: v.pending.drop_first(),
                results: v.results.push(neutral(v.pending[0])),
                ..v
            },
        );
    }
}

proof fn lemma_begun_runs(v: TurnView)
    ensures
        begun(v).1 is Execute ==> begun(v).0.phase == Phase::Running,
        begun(v).0.iterations <= if v.iterations >= MAX_ITERATIONS {
            v.iterations
        } else {
            v.iterations + 1
        },
{
    if v.iterations < MAX_ITERATIONS && v.pending.len() > 0 {
        lemma_advanced_runs(
            TurnView {
                iterations: v.iterations + 1,
                results: Seq::empty(),
                image_cursor: 0,
                ..v
            },
        );
    }
}

/// The tool-call loop never begins more than [`MAX_ITERATIONS`] iterations.
pub proof fn lemma_iterations_are_capped(v: TurnView, response: Response, result: ToolResult)
    requires
        v.iterations <= MAX_ITERATIONS,
    ensures
        responded(v, response).0.iterations <= MAX_ITERATIONS,
        executed(v, result).0.iterations <= MAX_ITERATIONS,
{
    let held = TurnView {
        pending: response.tool_calls@,
        has_done: carries_done(response.tool_calls@),
        ..v
    };
    lemma_begun_runs(TurnView { image_cursor: held.results.len(), ..held });
    lemma_begun_runs(TurnView { image_cursor: v.results.len(), ..v });
    lemma_advanced_runs(TurnView { results: v.results.push(result), ..v });
}

/// A response without intents is never accepted: the reasoner is asked
/// again, and the turn goes on.
pub proof fn lemma_empty_response_is_refused(v: TurnView, response: Response)
    requires
        v.phase == Phase::AwaitReply,
        v.iterations < MAX_ITERATIONS,
        !response.compacted,
        response.tool_calls@.len() == 0,
        next_image(v.results, v.image_cursor as int) >= v.results.len(),
    ensures
        responded(v, response).1 == Action::DemandTool,
        responded(v, response).0.phase == Phase::AwaitReply,
{
}

} // verus!
