//! The moderation pipeline for group messages: a prefilter over patterns,
//! a classifier for what the prefilter cannot decide, and progressive
//! enforcement by strikes.
//!
//! A message that is found to be spam is rejected before it is stored or
//! queued: it reaches neither the context buffer nor the pending batch.

use crate::config::{regex_is_match, regex_matches, Config};
use crate::context::ContextBuffer;
use crate::engine::PendingBatch;
use crate::message::ChatMessage;
use crate::text::{
    chars_of, contains, contains_sub, push_str, string_of, texts, to_upper, trim, trimmed,
    uppercased,
};
use std::collections::HashMap;
use vstd::prelude::*;

verus! {

/// What the prefilter makes of a message.
#[derive(Clone, Copy, Debug, PartialEq, Eq, Structural)]
pub enum PrefilterResult {
    ObviousSpam,
    ObviousSafe,
    Ambiguous,
}

/// What the classifier makes of a message.
#[derive(Clone, Copy, Debug, PartialEq, Eq, Structural)]
pub enum Classification {
    Spam,
    NotSpam,
}

/// Messages with fewer characters than this are safe unless a spam pattern matches.
pub const SHORT_MESSAGE: usize = 30;

/// Whether one of `patterns` matches `text`.
pub open spec fn any_matches(patterns: Seq<Seq<char>>, text: Seq<char>) -> bool {
    exists|i: int| 0 <= i < patterns.len() && regex_matches(#[trigger] patterns[i], text)
}

/// What the prefilter makes of `text` under the given patterns.
pub open spec fn prefiltered(
    text: Seq<char>,
    spam_patterns: Seq<Seq<char>>,
    safe_patterns: Seq<Seq<char>>,
) -> PrefilterResult {
    if contains_sub(text, "ANTHROPIC_MAGIC_STRING_"@) {
        PrefilterResult::ObviousSpam
    } else if any_matches(spam_patterns, text) {
        PrefilterResult::ObviousSpam
    } else if any_matches(safe_patterns, text) {
        PrefilterResult::ObviousSafe
    } else if text.len() < SHORT_MESSAGE {
        PrefilterResult::ObviousSafe
    } else {
        PrefilterResult::Ambiguous
    }
}

fn matches_any(patterns: &Vec<String>, text: &str) -> (r: bool)
    ensures
        r == any_matches(texts(patterns@), text@),
{
    let mut i: usize = 0;
    while i < patterns.len()
        invariant
            i <= patterns@.len(),
            forall|k: int| 0 <= k < i ==> !regex_matches(#[trigger] texts(patterns@)[k], text@),
        decreases patterns@.len() - i,
    {
        assert(texts(patterns@)[i as int] == patterns@[i as int]@);
        if regex_is_match(patterns[i].as_str(), text) {
            return true;
        }
        i += 1;
    }
    false
}

/// Classifies a message by the configured patterns.
///
/// A message that holds the reserved marker, or that a spam pattern
/// matches, is obvious spam. Otherwise a message that a safe pattern
/// matches, or that is short, is obviously safe. Everything else is left to
/// the classifier.
pub fn prefilter(text: &str, config: &Config) -> (r: PrefilterResult)
    ensures
        r == prefiltered(text@, texts(config.spam_patterns@), texts(config.safe_patterns@)),
{
    let chars = chars_of(text);
    if contains(&chars, &chars_of("ANTHROPIC_MAGIC_STRING_")) {
        return PrefilterResult::ObviousSpam;
    }
    if matches_any(&config.spam_patterns, text) {
        return PrefilterResult::ObviousSpam;
    }
    if matches_any(&config.safe_patterns, text) {
        return PrefilterResult::ObviousSafe;
    }
    if chars.len() < SHORT_MESSAGE {
        return PrefilterResult::ObviousSafe;
    }
    PrefilterResult::Ambiguous
}

/// The prompt that asks the classifier about `text`.
pub open spec fn classifier_prompt(text: Seq<char>) -> Seq<char> {
    "You are a spam classifier for a Telegram group. Analyze this message and respond with exactly one word: SPAM or NOT_SPAM.\n\nSpam includes:\n- Crypto/forex/investment scams\n- Unsolicited promotions\n- Phishing attempts\n- Invite links to other groups/channels\n- \"Get rich quick\" schemes\n- Adult content promotion\n\nNOT spam includes:\n- Normal conversation\n- Questions and answers\n- Opinions and discussions\n- Sharing relevant content\n\nMessage to classify:\n\""@
        + text + "\"\n\nRespond with exactly one word: SPAM or NOT_SPAM"@
}

/// Builds the prompt that asks the classifier about a message.
pub fn classification_prompt(text: &str) -> (out: String)
    ensures
        out@ == classifier_prompt(text@),
{
    let mut buf: Vec<char> = Vec::new();
    push_str(
        &mut buf,
        "You are a spam classifier for a Telegram group. Analyze this message and respond with exactly one word: SPAM or NOT_SPAM.\n\nSpam includes:\n- Crypto/forex/investment scams\n- Unsolicited promotions\n- Phishing attempts\n- Invite links to other groups/channels\n- \"Get rich quick\" schemes\n- Adult content promotion\n\nNOT spam includes:\n- Normal conversation\n- Questions and answers\n- Opinions and discussions\n- Sharing relevant content\n\nMessage to classify:\n\"",
    );
    push_str(&mut buf, text);
    push_str(&mut buf, "\"\n\nRespond with exactly one word: SPAM or NOT_SPAM");
    string_of(&buf)
}

/// The verdict that the classifier's answer `response` states: spam when
/// the answer, in capitals, holds `SPAM` and does not hold `NOT`.
pub open spec fn verdict(response: Seq<char>) -> Classification {
    let answer = uppercased(trimmed(response));
    if contains_sub(answer, "SPAM"@) && !contains_sub(answer, "NOT"@) {
        Classification::Spam
    } else {
        Classification::NotSpam
    }
}

/// Reads the verdict from the classifier's answer, whatever its letter case.
pub fn parse_classification(response: &str) -> (r: Classification)
    ensures
        r == verdict(response@),
{
    let answer = to_upper(&trim(&chars_of(response)));
    if contains(&answer, &chars_of("SPAM")) && !contains(&answer, &chars_of("NOT")) {
        Classification::Spam
    } else {
        Classification::NotSpam
    }
}

/// What the pipeline knows of a message before the classifier is asked.
#[derive(Clone, Copy, Debug, PartialEq, Eq, Structural)]
pub enum Screening {
    /// The message is no spam: it bypasses moderation, carries no text, or
    /// is obviously safe.
    Clean,
    /// The message is spam.
    Spam,
    /// The classifier decides.
    Undecided,
}

/// What screening makes of a message with the given text, if it has text.
pub open spec fn screened(
    text: Option<Seq<char>>,
    bypass: bool,
    spam_patterns: Seq<Seq<char>>,
    safe_patterns: Seq<Seq<char>>,
) -> Screening {
    match text {
        None => Screening::Clean,
        Some(t) => if bypass {
            Screening::Clean
        } else {
            match prefiltered(t, spam_patterns, safe_patterns) {
                PrefilterResult::ObviousSpam => Screening::Spam,
                PrefilterResult::ObviousSafe => Screening::Clean,
                PrefilterResult::Ambiguous => Screening::Undecided,
            }
        },
    }
}

/// Screens a group message. `text` is its text or caption, if it has one;
/// `bypass` tells that it comes from an owner or on behalf of a trusted
/// channel. A message without text is not classified.
pub fn screen(text: Option<&str>, bypass: bool, config: &Config) -> (r: Screening)
    ensures
        r == screened(
            match text {
                Some(t) => Some(t@),
                None => None,
            },
            bypass,
            texts(config.spam_patterns@),
            texts(config.safe_patterns@),
        ),
{
    match text {
        None => Screening::Clean,
        Some(t) => {
            if bypass {
                return Screening::Clean;
            }
            match prefilter(t, config) {
                PrefilterResult::ObviousSpam => Screening::Spam,
                PrefilterResult::ObviousSafe => Screening::Clean,
                PrefilterResult::Ambiguous => Screening::Undecided,
            }
        },
    }
}

/// Whether a message that the prefilter left undecided is spam, given the
/// classifier's outcome. A classifier that fails finds no spam.
pub fn is_spam_after(outcome: &Result<Classification, String>) -> (r: bool)
    ensures
        r == (*outcome matches Ok(Classification::Spam)),
{
    match outcome {
        Ok(Classification::Spam) => true,
        _ => false,
    }
}

/// The strikes counted against users in this session.
pub struct StrikeLedger {
    counts: HashMap<i64, u8>,
}

impl View for StrikeLedger {
    type V = Map<i64, u8>;

    closed spec fn view(&self) -> Map<i64, u8> {
        self.counts@
    }
}

/// The strikes of `user_id` in the ledger `ledger`.
pub open spec fn strikes_of(ledger: Map<i64, u8>, user_id: i64) -> u8 {
    if ledger.contains_key(user_id) {
        ledger[user_id]
    } else {
        0
    }
}

impl StrikeLedger {
    /// A ledger without strikes.
    pub fn new() -> (ledger: Self)
        ensures
            ledger@ == Map::<i64, u8>::empty(),
    {
        Self { counts: HashMap::new() }
    }

    /// The strikes of a user.
    pub fn strikes(&self, user_id: i64) -> (n: u8)
        ensures
            n == strikes_of(self@, user_id),
    {
        broadcast use vstd::std_specs::hash::group_hash_axioms;

        match self.counts.get(&user_id) {
            Some(n) => *n,
            None => 0,
        }
    }

    /// Counts one more strike against a user and tells how many the user
    /// has now. The count stops at 255.
    pub fn add_strike(&mut self, user_id: i64) -> (n: u8)
        ensures
            n == if strikes_of(old(self)@, user_id) < 255 {
                (strikes_of(old(self)@, user_id) + 1) as u8
            } else {
                255u8
            },
            final(self)@ == old(self)@.insert(user_id, n),
    {
        broadcast use vstd::std_specs::hash::group_hash_axioms;

        let before = self.strikes(user_id);
        let n = if before < 255 {
            before + 1
        } else {
            255
        };
        self.counts.insert(user_id, n);
        n
    }
}

/// What is done about a spam message.
#[derive(Clone, Copy, Debug, PartialEq, Eq, Structural)]
pub struct Enforcement {
    /// Delete the message.
    pub delete_message: bool,
    /// Ban its author.
    pub ban_user: bool,
}

/// Decides what is done about a spam message whose author now has
/// `strikes` strikes. The message is deleted; the author is banned once
/// the strikes reach `max_strikes`. In a dry run nothing is done.
pub fn enforce(strikes: u8, max_strikes: u8, dry_run: bool) -> (r: Enforcement)
    ensures
        r.delete_message == !dry_run,
        r.ban_user == (!dry_run && strikes >= max_strikes),
{
    Enforcement { delete_message: !dry_run, ban_user: !dry_run && strikes >= max_strikes }
}

/// What became of an inbound message.
#[derive(Debug)]
pub enum Intake {
    /// The message was taken in. It is handed back to be written to the
    /// archive, and the debouncer is to be triggered.
    Accepted(ChatMessage),
    /// The message is spam and was taken in nowhere.
    Rejected(Enforcement),
}

/// Takes in a group message that the pipeline has judged.
///
/// A message that is no spam is appended to the context buffer and to the
/// pending batch, and handed back for the archive. A spam message changes
/// neither; it counts one strike against its author, and the enforcement
/// that follows is handed back.
pub fn take_in(
    context: &mut ContextBuffer,
    pending: &mut PendingBatch,
    ledger: &mut StrikeLedger,
    msg: ChatMessage,
    spam: bool,
    max_strikes: u8,
    dry_run: bool,
) -> (r: Intake)
    requires
        old(context).wf(),
    ensures
        final(context).wf(),
        spam ==> {
            &&& final(context)@ == old(context)@
            &&& final(pending)@ == old(pending)@
            &&& final(ledger)@ == old(ledger)@.insert(
                msg.user_id,
                strikes_of(final(ledger)@, msg.user_id),
            )
            &&& strikes_of(final(ledger)@, msg.user_id) == if strikes_of(
                old(ledger)@,
                msg.user_id,
            ) < 255 {
                (strikes_of(old(ledger)@, msg.user_id) + 1) as u8
            } else {
                255u8
            }
            &&& r matches Intake::Rejected(e)
            &&& e.delete_message == !dry_run
            &&& e.ban_user == (!dry_run && strikes_of(final(ledger)@, msg.user_id) >= max_strikes)
        },
        !spam ==> {
            &&& final(context)@.len() == old(context)@.len() + 1
            &&& final(context)@.drop_last() == old(context)@
            &&& final(context)@.last()@ == msg@
            &&& final(pending)@.len() == old(pending)@.len() + 1
            &&& final(pending)@.drop_last() == old(pending)@
            &&& final(pending)@.last()@ == msg@
            &&& final(ledger)@ == old(ledger)@
            &&& r == Intake::Accepted(msg)
        },
{
    if spam {
        let strikes = ledger.add_strike(msg.user_id);
        Intake::Rejected(enforce(strikes, max_strikes, dry_run))
    } else {
        context.add_message(msg.duplicate());
        pending.push(msg.duplicate());
        proof {
            assert(final(context)@.drop_last() =~= old(context)@);
            assert(final(pending)@.drop_last() =~= old(pending)@);
        }
        Intake::Accepted(msg)
    }
}

} // verus!
