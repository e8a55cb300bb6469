//! Tracked research signals and the rotation of scheduled scans.
//!
//! A signal is an opportunity found by research. It moves through the stages
//! detected, researching, validated, actionable, building and shipped, or is
//! dropped. A scheduled scan rotates through five modes and through a list of
//! focus topics.

use crate::clock::{format_instant, utc_now, utc_now_millis, utc_text, Pattern};
use crate::text::{
    chars_of, decimal, join, join_strings, joined, lines, lines_of, push_all, push_decimal,
    push_str, str_eq, string_of, texts,
};
use vstd::prelude::*;

verus! {

/// Status of a tracked signal.
#[derive(Clone, Copy, Debug, PartialEq, Eq, Structural)]
pub enum SignalStatus {
    /// Just discovered, needs investigation.
    Detected,
    /// Currently being researched.
    Researching,
    /// Confirmed market or demand exists.
    Validated,
    /// Clear path to a first version identified.
    Actionable,
    /// Implementation in progress.
    Building,
    /// Launched and tracking metrics.
    Shipped,
    /// Not worth pursuing.
    Dropped,
}

impl SignalStatus {
    /// The status in capitals, as it is shown to the reasoner.
    pub open spec fn label_text(self) -> Seq<char> {
        match self {
            SignalStatus::Detected => "DETECTED"@,
            SignalStatus::Researching => "RESEARCHING"@,
            SignalStatus::Validated => "VALIDATED"@,
            SignalStatus::Actionable => "ACTIONABLE"@,
            SignalStatus::Building => "BUILDING"@,
            SignalStatus::Shipped => "SHIPPED"@,
            SignalStatus::Dropped => "DROPPED"@,
        }
    }

    /// The status in capitals, as it is shown to the reasoner.
    pub fn label(self) -> (out: &'static str)
        ensures
            out@ == self.label_text(),
    {
        match self {
            SignalStatus::Detected => "DETECTED",
            SignalStatus::Researching => "RESEARCHING",
            SignalStatus::Validated => "VALIDATED",
            SignalStatus::Actionable => "ACTIONABLE",
            SignalStatus::Building => "BUILDING",
            SignalStatus::Shipped => "SHIPPED",
            SignalStatus::Dropped => "DROPPED",
        }
    }

    /// Whether a signal in this status is still worked on.
    pub open spec fn is_active(self) -> bool {
        !(self is Dropped) && !(self is Shipped)
    }
}

/// A tracked signal.
#[derive(Clone, Debug)]
pub struct Signal {
    /// Unique identifier.
    pub id: String,
    /// Short title.
    pub title: String,
    pub status: SignalStatus,
    /// Detailed notes.
    pub notes: String,
    /// When first detected.
    pub detected_at: String,
    /// Time of the last update.
    pub updated_at: String,
    pub tags: Vec<String>,
}

/// What kind of research a scan does.
#[derive(Clone, Copy, Debug, PartialEq, Eq, Structural)]
pub enum ScanMode {
    /// Wide search for new signals.
    Discover,
    /// Deep dive into one signal.
    DeepDive,
    /// Validate the demand for a signal.
    Validate,
    /// Plan a first version.
    Plan,
    /// Check for updates on existing signals.
    FollowUp,
}

impl ScanMode {
    /// The mode that follows this one in the rotation.
    pub open spec fn successor(self) -> ScanMode {
        match self {
            ScanMode::Discover => ScanMode::DeepDive,
            ScanMode::DeepDive => ScanMode::Validate,
            ScanMode::Validate => ScanMode::Plan,
            ScanMode::Plan => ScanMode::FollowUp,
            ScanMode::FollowUp => ScanMode::Discover,
        }
    }

    /// The next mode in the rotation.
    pub fn next(self) -> (out: ScanMode)
        ensures
            out == self.successor(),
    {
        match self {
            ScanMode::Discover => ScanMode::DeepDive,
            ScanMode::DeepDive => ScanMode::Validate,
            ScanMode::Validate => ScanMode::Plan,
            ScanMode::Plan => ScanMode::FollowUp,
            ScanMode::FollowUp => ScanMode::Discover,
        }
    }

    /// The mode in capitals, as it is shown to the reasoner.
    pub open spec fn label_text(self) -> Seq<char> {
        match self {
            ScanMode::Discover => "DISCOVER"@,
            ScanMode::DeepDive => "DEEP_DIVE"@,
            ScanMode::Validate => "VALIDATE"@,
            ScanMode::Plan => "PLAN"@,
            ScanMode::FollowUp => "FOLLOW_UP"@,
        }
    }

    /// The mode in capitals, as it is shown to the reasoner.
    pub fn label(self) -> (out: &'static str)
        ensures
            out@ == self.label_text(),
    {
        match self {
            ScanMode::Discover => "DISCOVER",
            ScanMode::DeepDive => "DEEP_DIVE",
            ScanMode::Validate => "VALIDATE",
            ScanMode::Plan => "PLAN",
            ScanMode::FollowUp => "FOLLOW_UP",
        }
    }

    /// The instructions given to the reasoner in this mode.
    pub open spec fn instructions_text(self) -> Seq<char> {
        match self {
            ScanMode::Discover =>
                "🔍 DISCOVER MODE: Hunt for NEW signals. Look for:\n- Emerging trends in AI/crypto/tech\n- Underserved markets or niches\n- Problems people complain about that could be productized\n- New APIs/tools that enable new products\nUse WebSearch to find fresh opportunities. If you find something interesting, add it as a signal."@,
            ScanMode::DeepDive =>
                "🔬 DEEP DIVE MODE: Research an existing signal in depth. Pick one RESEARCHING signal and:\n- Find competitors and analyze their weaknesses\n- Estimate market size\n- Identify key features for MVP\n- Find potential customers/communities\nUpdate the signal notes with your findings."@,
            ScanMode::Validate =>
                "✅ VALIDATE MODE: Confirm market demand for a signal. Pick one RESEARCHING signal and:\n- Search for people asking for this solution\n- Check Reddit/Twitter/HN for complaints about the problem\n- Look for failed attempts (why did they fail?)\n- Estimate willingness to pay\nIf validated, update status to VALIDATED. If not promising, mark as DROPPED."@,
            ScanMode::Plan =>
                "📋 PLAN MODE: Create MVP plan for a VALIDATED signal. Pick one and:\n- Define minimal feature set (what's the core value?)\n- Identify tech stack (fast to build, not perfect)\n- Estimate effort (weekend project? week? month?)\n- Define monetization (how will it make money?)\nIf plan is clear, update status to ACTIONABLE with implementation notes."@,
            ScanMode::FollowUp =>
                "🔄 FOLLOW UP MODE: Check for updates on tracked signals:\n- Any news about competitors?\n- Market changes?\n- New opportunities related to existing signals?\n- Any BUILDING signals need status update?\nUpdate notes with new findings."@,
        }
    }

    /// The instructions for this scan mode.
    pub fn instructions(&self) -> (out: &'static str)
        ensures
            out@ == self.instructions_text(),
    {
        match self {
            ScanMode::Discover =>
                "🔍 DISCOVER MODE: Hunt for NEW signals. Look for:\n- Emerging trends in AI/crypto/tech\n- Underserved markets or niches\n- Problems people complain about that could be productized\n- New APIs/tools that enable new products\nUse WebSearch to find fresh opportunities. If you find something interesting, add it as a signal.",
            ScanMode::DeepDive =>
                "🔬 DEEP DIVE MODE: Research an existing signal in depth. Pick one RESEARCHING signal and:\n- Find competitors and analyze their weaknesses\n- Estimate market size\n- Identify key features for MVP\n- Find potential customers/communities\nUpdate the signal notes with your findings.",
            ScanMode::Validate =>
                "✅ VALIDATE MODE: Confirm market demand for a signal. Pick one RESEARCHING signal and:\n- Search for people asking for this solution\n- Check Reddit/Twitter/HN for complaints about the problem\n- Look for failed attempts (why did they fail?)\n- Estimate willingness to pay\nIf validated, update status to VALIDATED. If not promising, mark as DROPPED.",
            ScanMode::Plan =>
                "📋 PLAN MODE: Create MVP plan for a VALIDATED signal. Pick one and:\n- Define minimal feature set (what's the core value?)\n- Identify tech stack (fast to build, not perfect)\n- Estimate effort (weekend project? week? month?)\n- Define monetization (how will it make money?)\nIf plan is clear, update status to ACTIONABLE with implementation notes.",
            ScanMode::FollowUp =>
                "🔄 FOLLOW UP MODE: Check for updates on tracked signals:\n- Any news about competitors?\n- Market changes?\n- New opportunities related to existing signals?\n- Any BUILDING signals need status update?\nUpdate notes with new findings.",
        }
    }
}

/// Five steps through the rotation lead back to the start.
pub proof fn lemma_mode_ring(mode: ScanMode)
    ensures
        mode.successor().successor().successor().successor().successor() == mode,
{
}

/// The signals and the state of the scan rotation.
#[derive(Clone, Debug)]
pub struct SignalsStore {
    pub signals: Vec<Signal>,
    /// Mode of the next scan; the rotation starts with discovery.
    pub current_mode: Option<ScanMode>,
    /// Focus topics for discovery, used in turn.
    pub focus_topics: Vec<String>,
    /// Position of the next focus topic.
    pub focus_index: usize,
}

/// The first three lines of `notes`, joined by spaces.
pub open spec fn notes_summary(notes: Seq<char>) -> Seq<char> {
    let all = lines_of(notes);
    joined(
        all.take(
            if all.len() < 3 {
                all.len() as int
            } else {
                3
            },
        ),
        " "@,
    )
}

/// The tags of a signal, separated by commas, or `none`.
pub open spec fn tags_text(tags: Seq<String>) -> Seq<char> {
    if tags.len() == 0 {
        "none"@
    } else {
        joined(texts(tags), ", "@)
    }
}

/// The entry of one signal in the prompt.
pub open spec fn signal_entry(signal: Signal) -> Seq<char> {
    "### "@ + signal.title@ + " ["@ + signal.status.label_text() + "]\n**ID:** "@ + signal.id@
        + "\n**Tags:** "@ + tags_text(signal.tags@) + "\n**Notes:** "@ + notes_summary(
        signal.notes@,
    ) + "\n\n"@
}

/// The entries of the active signals among `signals`, in order.
pub open spec fn active_entries(signals: Seq<Signal>) -> Seq<char>
    decreases signals.len(),
{
    if signals.len() == 0 {
        Seq::empty()
    } else if signals.last().status.is_active() {
        active_entries(signals.drop_last()) + signal_entry(signals.last())
    } else {
        active_entries(signals.drop_last())
    }
}

/// Whether some signal among `signals` is active.
pub open spec fn has_active(signals: Seq<Signal>) -> bool {
    exists|i: int| 0 <= i < signals.len() && (#[trigger] signals[i]).status.is_active()
}

/// The snapshot of the tracked signals that is given to the reasoner.
pub open spec fn prompt_text(signals: Seq<Signal>) -> Seq<char> {
    if has_active(signals) {
        "## Currently Tracked Signals\n\n"@ + active_entries(signals)
    } else {
        "No signals being tracked yet. Start by discovering new opportunities!"@
    }
}

/// The line that names the focus topic. Only discovery scans have one.
pub open spec fn focus_line(mode: ScanMode, focus: Option<Seq<char>>) -> Seq<char> {
    match (mode, focus) {
        (ScanMode::Discover, Some(topic)) => "\n🎯 **Focus topic this scan:** "@ + topic + "\n"@,
        _ => Seq::empty(),
    }
}

/// The message of a scheduled scan in `mode` with the given focus topic and
/// signal snapshot.
pub open spec fn scan_message(mode: ScanMode, focus: Option<Seq<char>>, snapshot: Seq<char>) -> Seq<
    char,
> {
    "[SCAN] Scheduled research scan.\n\n## Current Mode: "@ + mode.label_text() + "\n\n"@
        + mode.instructions_text() + "\n"@ + focus_line(mode, focus) + "\n\n---\n\n"@ + snapshot
        + "\n\n---\n\n**Tools available:**\n- `add_signal(title, notes, tags)` - Track a new opportunity\n- `update_signal(id, status, notes)` - Update signal status/notes\n- `list_signals()` - See all tracked signals\n- WebSearch - Research the web\n\nShare your findings with @peer_bot after researching."@
}

fn summary_of(notes: &str) -> (out: Vec<char>)
    ensures
        out@ == notes_summary(notes@),
{
    let mut all = lines(&chars_of(notes));
    if all.len() > 3 {
        let ghost before = crate::text::views(all@);
        all.truncate(3);
        assert(crate::text::views(all@) =~= before.take(3));
    } else {
        assert(crate::text::views(all@).take(all.len() as int) =~= crate::text::views(all@));
    }
    join(&all, " ")
}

fn push_entry(out: &mut Vec<char>, signal: &Signal)
    ensures
        final(out)@ == old(out)@ + signal_entry(*signal),
{
    let ghost start = out@;
    push_str(out, "### ");
    push_str(out, signal.title.as_str());
    push_str(out, " [");
    push_str(out, signal.status.label());
    push_str(out, "]\n**ID:** ");
    push_str(out, signal.id.as_str());
    push_str(out, "\n**Tags:** ");
    if signal.tags.len() == 0 {
        push_str(out, "none");
    } else {
        let tags = join_strings(&signal.tags, ", ");
        push_all(out, &tags);
    }
    push_str(out, "\n**Notes:** ");
    let summary = summary_of(signal.notes.as_str());
    push_all(out, &summary);
    push_str(out, "\n\n");
    assert(out@ =~= start + signal_entry(*signal));
}

impl SignalsStore {
    /// A store without signals that starts the rotation at discovery with
    /// the standard focus topics.
    pub fn initial() -> (store: Self)
        ensures
            store.signals@.len() == 0,
            store.current_mode == Some(ScanMode::Discover),
            store.focus_index == 0,
            texts(store.focus_topics@) == seq![
                "AI agents and automation"@,
                "Developer tools and APIs"@,
                "Crypto/DeFi opportunities"@,
                "SaaS micro-products"@,
                "Content and media tools"@,
            ],
    {
        let mut focus_topics: Vec<String> = Vec::new();
        focus_topics.push("AI agents and automation".to_owned());
        focus_topics.push("Developer tools and APIs".to_owned());
        focus_topics.push("Crypto/DeFi opportunities".to_owned());
        focus_topics.push("SaaS micro-products".to_owned());
        focus_topics.push("Content and media tools".to_owned());
        assert(texts(focus_topics@) =~= seq![
            "AI agents and automation"@,
            "Developer tools and APIs"@,
            "Crypto/DeFi opportunities"@,
            "SaaS micro-products"@,
            "Content and media tools"@,
        ]);
        Self {
            signals: Vec::new(),
            current_mode: Some(ScanMode::Discover),
            focus_topics,
            focus_index: 0,
        }
    }

    /// Whether the focus position points at a topic, or there is none to point at.
    pub open spec fn focus_in_range(self) -> bool {
        self.focus_topics@.len() == 0 || self.focus_index < self.focus_topics@.len()
    }

    /// The current focus topic; the position moves on to the next topic and
    /// wraps around at the end. Without topics there is none and nothing changes.
    pub fn get_and_advance_focus(&mut self) -> (topic: Option<String>)
        requires
            old(self).focus_in_range(),
        ensures
            final(self).signals == old(self).signals,
            final(self).current_mode == old(self).current_mode,
            final(self).focus_topics == old(self).focus_topics,
            final(self).focus_in_range(),
            old(self).focus_topics@.len() == 0 ==> topic is None && final(self).focus_index == old(
                self,
            ).focus_index,
            old(self).focus_topics@.len() > 0 ==> topic == Some(
                old(self).focus_topics@[old(self).focus_index as int],
            ) && final(self).focus_index == (old(self).focus_index + 1) % (old(
                self,
            ).focus_topics@.len() as int),
    {
        if self.focus_topics.len() == 0 {
            return None;
        }
        let topic = self.focus_topics[self.focus_index].clone();
        let n = self.focus_topics.len();
        proof {
            let i = self.focus_index as int;
            let m = n as int;
            assert((i + 1) % m == if i + 1 == m {
                0
            } else {
                i + 1
            }) by (nonlinear_arith)
                requires
                    0 <= i < m,
            ;
        }
        self.focus_index = if self.focus_index + 1 == n {
            0
        } else {
            self.focus_index + 1
        };
        Some(topic)
    }

    /// The mode of this scan; the store moves on to the next mode.
    pub fn get_and_advance_mode(&mut self) -> (mode: ScanMode)
        ensures
            mode == match old(self).current_mode {
                Some(m) => m,
                None => ScanMode::Discover,
            },
            final(self).current_mode == Some(mode.successor()),
            final(self).signals == old(self).signals,
            final(self).focus_topics == old(self).focus_topics,
            final(self).focus_index == old(self).focus_index,
    {
        let mode = match self.current_mode {
            Some(m) => m,
            None => ScanMode::Discover,
        };
        self.current_mode = Some(mode.next());
        mode
    }

    /// The signals in the given status, in order.
    pub fn by_status(&self, status: SignalStatus) -> (found: Vec<&Signal>)
        ensures
            found@.map_values(|s: &Signal| *s) == self.signals@.filter(
                |s: Signal| s.status == status,
            ),
    {
        let mut found: Vec<&Signal> = Vec::new();
        let ghost pred = |s: Signal| s.status == status;
        let mut i: usize = 0;
        proof {
            reveal(Seq::filter);
            assert(self.signals@.take(0).filter(pred) =~= Seq::empty());
        }
        while i < self.signals.len()
            invariant
                i <= self.signals@.len(),
                pred == |s: Signal| s.status == status,
                found@.map_values(|s: &Signal| *s) == self.signals@.take(i as int).filter(pred),
            decreases self.signals@.len() - i,
        {
            let ghost before = found@.map_values(|s: &Signal| *s);
            proof {
                reveal(Seq::filter);
                assert(self.signals@.take(i + 1).drop_last() =~= self.signals@.take(i as int));
            }
            if self.signals[i].status == status {
                found.push(&self.signals[i]);
                assert(found@.map_values(|s: &Signal| *s) =~= before.push(self.signals@[i as int]));
            }
            i += 1;
        }
        proof {
            assert(self.signals@.take(self.signals@.len() as int) =~= self.signals@);
        }
        found
    }

    /// The signals that are neither dropped nor shipped, in order.
    pub fn active(&self) -> (found: Vec<&Signal>)
        ensures
            found@.map_values(|s: &Signal| *s) == self.signals@.filter(
                |s: Signal| s.status.is_active(),
            ),
    {
        let mut found: Vec<&Signal> = Vec::new();
        let ghost pred = |s: Signal| s.status.is_active();
        let mut i: usize = 0;
        proof {
            reveal(Seq::filter);
            assert(self.signals@.take(0).filter(pred) =~= Seq::empty());
        }
        while i < self.signals.len()
            invariant
                i <= self.signals@.len(),
                pred == |s: Signal| s.status.is_active(),
                found@.map_values(|s: &Signal| *s) == self.signals@.take(i as int).filter(pred),
            decreases self.signals@.len() - i,
        {
            let ghost before = found@.map_values(|s: &Signal| *s);
            proof {
                reveal(Seq::filter);
                assert(self.signals@.take(i + 1).drop_last() =~= self.signals@.take(i as int));
            }
            let status = self.signals[i].status;
            if status != SignalStatus::Dropped && status != SignalStatus::Shipped {
                found.push(&self.signals[i]);
                assert(found@.map_values(|s: &Signal| *s) =~= before.push(self.signals@[i as int]));
            }
            i += 1;
        }
        proof {
            assert(self.signals@.take(self.signals@.len() as int) =~= self.signals@);
        }
        found
    }

    /// The position of the first signal with the id `id`.
    pub open spec fn position(signals: Seq<Signal>, id: Seq<char>) -> Option<int>
        decreases signals.len(),
    {
        if signals.len() == 0 {
            None
        } else {
            match Self::position(signals.drop_last(), id) {
                Some(i) => Some(i),
                None => if signals.last().id@ == id {
                    Some(signals.len() - 1)
                } else {
                    None
                },
            }
        }
    }

    fn find(&self, id: &str) -> (found: Option<usize>)
        ensures
            match found {
                Some(i) => Self::position(self.signals@, id@) == Some(i as int) && i
                    < self.signals@.len(),
                None => Self::position(self.signals@, id@) is None,
            },
    {
        let mut i: usize = 0;
        while i < self.signals.len()
            invariant
                i <= self.signals@.len(),
                Self::position(self.signals@.take(i as int), id@) is None,
            decreases self.signals@.len() - i,
        {
            proof {
                assert(self.signals@.take(i + 1).drop_last() =~= self.signals@.take(i as int));
                assert(self.signals@.take(i + 1).last() == self.signals@[i as int]);
            }
            if str_eq(self.signals[i].id.as_str(), id) {
                proof {
                    lemma_position_stays(self.signals@, id@, i + 1);
                }
                return Some(i);
            }
            i += 1;
        }
        proof {
            assert(self.signals@.take(self.signals@.len() as int) =~= self.signals@);
        }
        None
    }

    /// Adds a signal that was detected at the instant whose text is `now`
    /// and whose milliseconds are `now_millis`. The signal's id is `sig_`
    /// followed by the milliseconds; it is handed back.
    pub fn add_signal_at(
        &mut self,
        title: String,
        notes: String,
        tags: Vec<String>,
        now: String,
        now_millis: i64,
    ) -> (id: String)
        ensures
            id@ == signal_id(now_millis as int),
            final(self).signals@.len() == old(self).signals@.len() + 1,
            final(self).signals@.drop_last() == old(self).signals@,
            ({
                let added = final(self).signals@.last();
                &&& added.id@ == id@
                &&& added.title == title
                &&& added.status == SignalStatus::Detected
                &&& added.notes == notes
                &&& added.detected_at == now
                &&& added.updated_at == now
                &&& added.tags == tags
            }),
            final(self).current_mode == old(self).current_mode,
            final(self).focus_topics == old(self).focus_topics,
            final(self).focus_index == old(self).focus_index,
    {
        let mut buf: Vec<char> = Vec::new();
        push_str(&mut buf, "sig_");
        push_decimal(&mut buf, now_millis);
        let id = string_of(&buf);
        self.signals.push(
            Signal {
                id: id.clone(),
                title,
                status: SignalStatus::Detected,
                notes,
                detected_at: now.clone(),
                updated_at: now,
                tags,
            },
        );
        assert(self.signals@.drop_last() =~= old(self).signals@);
        id
    }

    /// Adds a signal that is detected now.
    pub fn add_signal(&mut self, title: String, notes: String, tags: Vec<String>) -> (id: String)
        ensures
            final(self).signals@.len() == old(self).signals@.len() + 1,
            final(self).signals@.drop_last() == old(self).signals@,
            exists|millis: i64| id@ == #[trigger] signal_id(millis as int),
            ({
                let added = final(self).signals@.last();
                &&& added.id@ == id@
                &&& added.title == title
                &&& added.status == SignalStatus::Detected
                &&& added.notes == notes
                &&& added.tags == tags
                &&& added.updated_at == added.detected_at
                &&& exists|at: i64| added.detected_at@ == #[trigger] stamp_of(at as int)
            }),
            final(self).current_mode == old(self).current_mode,
            final(self).focus_topics == old(self).focus_topics,
            final(self).focus_index == old(self).focus_index,
    {
        let now = now_stamp();
        let millis = utc_now_millis();
        let id = self.add_signal_at(title, notes, tags, now, millis);
        assert(id@ == signal_id(millis as int));
        id
    }

    /// Sets the status of the first signal with the id `id` at the instant
    /// whose text is `now`. Answers whether there is such a signal.
    pub fn update_status_at(&mut self, id: &str, status: SignalStatus, now: String) -> (found: bool)
        ensures
            found == Self::position(old(self).signals@, id@) is Some,
            final(self).signals@.len() == old(self).signals@.len(),
            final(self).current_mode == old(self).current_mode,
            final(self).focus_topics == old(self).focus_topics,
            final(self).focus_index == old(self).focus_index,
            match Self::position(old(self).signals@, id@) {
                Some(i) => {
                    let before = old(self).signals@[i];
                    let after = final(self).signals@[i];
                    &&& after.status == status
                    &&& after.updated_at == now
                    &&& after.id == before.id
                    &&& after.title == before.title
                    &&& after.notes == before.notes
                    &&& after.detected_at == before.detected_at
                    &&& after.tags == before.tags
                    &&& forall|j: int|
                        0 <= j < old(self).signals@.len() && j != i ==> final(self).signals@[j]
                            == old(self).signals@[j]
                },
                None => final(self).signals@ == old(self).signals@,
            },
    {
        match self.find(id) {
            Some(i) => {
                self.signals[i].status = status;
                self.signals[i].updated_at = now;
                true
            },
            None => false,
        }
    }

    /// Sets the notes of the first signal with the id `id` at the instant
    /// whose text is `now`. Answers whether there is such a signal.
    pub fn update_notes_at(&mut self, id: &str, notes: String, now: String) -> (found: bool)
        ensures
            found == Self::position(old(self).signals@, id@) is Some,
            final(self).signals@.len() == old(self).signals@.len(),
            final(self).current_mode == old(self).current_mode,
            final(self).focus_topics == old(self).focus_topics,
            final(self).focus_index == old(self).focus_index,
            match Self::position(old(self).signals@, id@) {
                Some(i) => {
                    let before = old(self).signals@[i];
                    let after = final(self).signals@[i];
                    &&& after.notes == notes
                    &&& after.updated_at == now
                    &&& after.id == before.id
                    &&& after.title == before.title
                    &&& after.status == before.status
                    &&& after.detected_at == before.detected_at
                    &&& after.tags == before.tags
                    &&& forall|j: int|
                        0 <= j < old(self).signals@.len() && j != i ==> final(self).signals@[j]
                            == old(self).signals@[j]
                },
                None => final(self).signals@ == old(self).signals@,
            },
    {
        match self.find(id) {
            Some(i) => {
                self.signals[i].notes = notes;
                self.signals[i].updated_at = now;
                true
            },
            None => false,
        }
    }

    /// Sets the status of the first signal with the id `id` now, and the
    /// time of its last update with it. Nothing else changes. Answers
    /// whether there is such a signal.
    pub fn update_status(&mut self, id: &str, status: SignalStatus) -> (found: bool)
        ensures
            found == Self::position(old(self).signals@, id@) is Some,
            final(self).signals@.len() == old(self).signals@.len(),
            final(self).current_mode == old(self).current_mode,
            final(self).focus_topics == old(self).focus_topics,
            final(self).focus_index == old(self).focus_index,
            match Self::position(old(self).signals@, id@) {
                Some(i) => {
                    let before = old(self).signals@[i];
                    let after = final(self).signals@[i];
                    &&& after.status == status
                    &&& exists|at: i64| after.updated_at@ == #[trigger] stamp_of(at as int)
                    &&& after.id == before.id
                    &&& after.title == before.title
                    &&& after.notes == before.notes
                    &&& after.detected_at == before.detected_at
                    &&& after.tags == before.tags
                    &&& forall|j: int|
                        0 <= j < old(self).signals@.len() && j != i ==> final(self).signals@[j]
                            == old(self).signals@[j]
                },
                None => final(self).signals@ == old(self).signals@,
            },
    {
        self.update_status_at(id, status, now_stamp())
    }

    /// Sets the notes of the first signal with the id `id` now, and the
    /// time of its last update with them. Nothing else changes. Answers
    /// whether there is such a signal.
    pub fn update_notes(&mut self, id: &str, notes: String) -> (found: bool)
        ensures
            found == Self::position(old(self).signals@, id@) is Some,
            final(self).signals@.len() == old(self).signals@.len(),
            final(self).current_mode == old(self).current_mode,
            final(self).focus_topics == old(self).focus_topics,
            final(self).focus_index == old(self).focus_index,
            match Self::position(old(self).signals@, id@) {
                Some(i) => {
                    let before = old(self).signals@[i];
                    let after = final(self).signals@[i];
                    &&& after.notes == notes
                    &&& exists|at: i64| after.updated_at@ == #[trigger] stamp_of(at as int)
                    &&& after.id == before.id
                    &&& after.title == before.title
                    &&& after.status == before.status
                    &&& after.detected_at == before.detected_at
                    &&& after.tags == before.tags
                    &&& forall|j: int|
                        0 <= j < old(self).signals@.len() && j != i ==> final(self).signals@[j]
                            == old(self).signals@[j]
                },
                None => final(self).signals@ == old(self).signals@,
            },
    {
        self.update_notes_at(id, notes, now_stamp())
    }

    /// Formats the active signals for inclusion in a scan message.
    pub fn format_for_prompt(&self) -> (out: String)
        ensures
            out@ == prompt_text(self.signals@),
    {
        let mut entries: Vec<char> = Vec::new();
        let mut any = false;
        let mut i: usize = 0;
        while i < self.signals.len()
            invariant
                i <= self.signals@.len(),
                entries@ == active_entries(self.signals@.take(i as int)),
                any == has_active(self.signals@.take(i as int)),
            decreases self.signals@.len() - i,
        {
            let ghost seen = self.signals@.take(i as int);
            let ghost now = self.signals@.take(i + 1);
            proof {
                assert(now.drop_last() =~= seen);
                assert(now.last() == self.signals@[i as int]);
                if has_active(seen) {
                    let k = choose|k: int| 0 <= k < seen.len() && (#[trigger] seen[k]).status.is_active();
                    assert(now[k].status.is_active());
                }
                if has_active(now) && !now.last().status.is_active() {
                    let k = choose|k: int| 0 <= k < now.len() && (#[trigger] now[k]).status.is_active();
                    assert(seen[k].status.is_active());
                }
            }
            let status = self.signals[i].status;
            if status != SignalStatus::Dropped && status != SignalStatus::Shipped {
                push_entry(&mut entries, &self.signals[i]);
                any = true;
                assert(now[i as int].status.is_active());
            }
            i += 1;
        }
        proof {
            assert(self.signals@.take(self.signals@.len() as int) =~= self.signals@);
        }
        if !any {
            return "No signals being tracked yet. Start by discovering new opportunities!".to_owned();
        }
        let mut out: Vec<char> = Vec::new();
        push_str(&mut out, "## Currently Tracked Signals\n\n");
        push_all(&mut out, &entries);
        string_of(&out)
    }
}

proof fn lemma_position_stays(signals: Seq<Signal>, id: Seq<char>, n: int)
    requires
        0 <= n <= signals.len(),
        SignalsStore::position(signals.take(n), id) is Some,
    ensures
        SignalsStore::position(signals, id) == SignalsStore::position(signals.take(n), id),
    decreases signals.len() - n,
{
    if n < signals.len() {
        assert(signals.take(n + 1).drop_last() =~= signals.take(n));
        lemma_position_stays(signals, id, n + 1);
    } else {
        assert(signals.take(n) =~= signals);
    }
}

/// The id of a signal that was detected at the millisecond `millis`.
pub open spec fn signal_id(millis: int) -> Seq<char> {
    "sig_"@ + decimal(millis)
}

/// How signals carry the instant `at`: its text in the stamp pattern, and
/// the empty text where the calendar does not reach the instant.
pub open spec fn stamp_of(at: int) -> Seq<char> {
    match utc_text(at, Pattern::Stamp.format_text()) {
        Some(text) => text,
        None => Seq::empty(),
    }
}

/// The present instant as signals carry it; empty where the calendar does
/// not reach the present.
fn now_stamp() -> (out: String)
    ensures
        exists|at: i64| out@ == #[trigger] stamp_of(at as int),
{
    let at = utc_now();
    let out = match format_instant(at, Pattern::Stamp) {
        Some(text) => text,
        None => String::new(),
    };
    assert(out@ == stamp_of(at as int));
    out
}

/// Generates the message of a scheduled scan. The store moves on to the
/// next mode and the next focus topic.
pub fn generate_scan_message(store: &mut SignalsStore) -> (out: String)
    requires
        old(store).focus_in_range(),
    ensures
        final(store).signals == old(store).signals,
        final(store).focus_topics == old(store).focus_topics,
        final(store).focus_in_range(),
        final(store).current_mode == Some(scan_mode_of(*old(store)).successor()),
        old(store).focus_topics@.len() > 0 ==> final(store).focus_index == (old(store).focus_index
            + 1) % (old(store).focus_topics@.len() as int),
        old(store).focus_topics@.len() == 0 ==> final(store).focus_index == old(store).focus_index,
        out@ == scan_message(
            scan_mode_of(*old(store)),
            scan_focus_of(*old(store)),
            prompt_text(old(store).signals@),
        ),
{
    let mode = store.get_and_advance_mode();
    let focus = store.get_and_advance_focus();
    let snapshot = store.format_for_prompt();
    let mut out: Vec<char> = Vec::new();
    push_str(&mut out, "[SCAN] Scheduled research scan.\n\n## Current Mode: ");
    push_str(&mut out, mode.label());
    push_str(&mut out, "\n\n");
    push_str(&mut out, mode.instructions());
    push_str(&mut out, "\n");
    let ghost before_focus = out@;
    match (mode, &focus) {
        (ScanMode::Discover, Some(topic)) => {
            push_str(&mut out, "\n🎯 **Focus topic this scan:** ");
            push_str(&mut out, topic.as_str());
            push_str(&mut out, "\n");
        },
        _ => {},
    }
    assert(out@ =~= before_focus + focus_line(mode, scan_focus_of(*old(store))));
    push_str(&mut out, "\n\n---\n\n");
    push_str(&mut out, snapshot.as_str());
    push_str(
        &mut out,
        "\n\n---\n\n**Tools available:**\n- `add_signal(title, notes, tags)` - Track a new opportunity\n- `update_signal(id, status, notes)` - Update signal status/notes\n- `list_signals()` - See all tracked signals\n- WebSearch - Research the web\n\nShare your findings with @peer_bot after researching.",
    );
    assert(out@ =~= scan_message(
        scan_mode_of(*old(store)),
        scan_focus_of(*old(store)),
        prompt_text(old(store).signals@),
    ));
    string_of(&out)
}

/// The mode of the next scan of `store`.
pub open spec fn scan_mode_of(store: SignalsStore) -> ScanMode {
    match store.current_mode {
        Some(m) => m,
        None => ScanMode::Discover,
    }
}

/// The focus topic of the next scan of `store`, if it has topics.
pub open spec fn scan_focus_of(store: SignalsStore) -> Option<Seq<char>> {
    if store.focus_topics@.len() > 0 {
        Some(store.focus_topics@[store.focus_index as int]@)
    } else {
        None
    }
}

} // verus!
