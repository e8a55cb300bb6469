//! Messages between bot instances that share a directory.

use crate::config::without_at;
use crate::memory::first_match;
use crate::order::{arranged, is_text_order, text_order};
use crate::text::{
    chars_of, contains, contains_sub, ends_with, find_from, has_suffix, lowercased, push_all,
    push_str, push_unsigned, same_chars, slice_of, string_of, texts, to_lower,
};
use vstd::prelude::*;

verus! {

/// A message sent between peer bots.
#[derive(Clone, Debug)]
pub struct PeerMessage {
    /// Id of the chat message that caused this one.
    pub message_id: i64,
    /// Chat where the message was sent.
    pub chat_id: i64,
    /// Username of the sending bot, without `@`.
    pub from_bot: String,
    /// Username of the receiving bot, without `@`.
    pub to_bot: String,
    pub text: String,
    pub timestamp: String,
    pub reply_to_message_id: Option<i64>,
}

/// Whether `text` mentions the bot `bot` as `@bot`, in any letter case.
pub open spec fn mentions(text: Seq<char>, bot: Seq<char>) -> bool {
    contains_sub(lowercased(text), seq!['@'] + lowercased(bot))
}

/// The peer bots that `text` mentions, in the order of `peer_bots`.
pub fn find_mentioned_peers(text: &str, peer_bots: &Vec<String>) -> (found: Vec<String>)
    ensures
        texts(found@) == texts(peer_bots@).filter(|bot: Seq<char>| mentions(text@, bot)),
{
    let text_lower = to_lower(&chars_of(text));
    let mut found: Vec<String> = Vec::new();
    let ghost pred = |bot: Seq<char>| mentions(text@, bot);
    let mut i: usize = 0;
    proof {
        reveal(Seq::filter);
        assert(texts(peer_bots@).take(0).filter(pred) =~= Seq::empty());
        assert(texts(found@) =~= Seq::empty());
    }
    while i < peer_bots.len()
        invariant
            i <= peer_bots@.len(),
            text_lower@ == lowercased(text@),
            pred == |bot: Seq<char>| mentions(text@, bot),
            texts(found@) == texts(peer_bots@).take(i as int).filter(pred),
        decreases peer_bots@.len() - i,
    {
        let ghost before = texts(found@);
        proof {
            reveal(Seq::filter);
            assert(texts(peer_bots@).take(i + 1).drop_last() =~= texts(peer_bots@).take(i as int));
        }
        let bot_lower = to_lower(&chars_of(peer_bots[i].as_str()));
        let mut mention: Vec<char> = Vec::new();
        mention.push('@');
        push_all(&mut mention, &bot_lower);
        assert(mention@ =~= seq!['@'] + lowercased(peer_bots@[i as int]@));
        if contains(&text_lower, &mention) {
            found.push(peer_bots[i].clone());
            assert(texts(found@) =~= before.push(peer_bots@[i as int]@));
        }
        i += 1;
    }
    proof {
        assert(texts(peer_bots@).take(peer_bots@.len() as int) =~= texts(peer_bots@));
    }
    found
}

/// The name of the file that carries a message from `from_bot` to
/// `to_bot`, written at the millisecond `timestamp_ms`.
pub fn message_file_name(timestamp_ms: u128, from_bot: &str, to_bot: &str) -> (out: String)
    ensures
        out@ == crate::text::nat_digits(timestamp_ms as nat) + "_"@ + from_bot@ + "_to_"@ + to_bot@
            + ".json"@,
{
    let mut buf: Vec<char> = Vec::new();
    push_unsigned(&mut buf, timestamp_ms);
    push_str(&mut buf, "_");
    push_str(&mut buf, from_bot);
    push_str(&mut buf, "_to_");
    push_str(&mut buf, to_bot);
    push_str(&mut buf, ".json");
    string_of(&buf)
}

/// `s` without the repetitions of `suffix` at its end.
pub open spec fn without_suffix(s: Seq<char>, suffix: Seq<char>) -> Seq<char>
    decreases s.len(),
{
    if suffix.len() > 0 && has_suffix(s, suffix) {
        without_suffix(s.subrange(0, s.len() - suffix.len()), suffix)
    } else {
        s
    }
}

/// The bot that the message file `filename` is addressed to: what stands
/// after the one `_to_` of its name, in lower case.
pub open spec fn addressee(filename: Seq<char>) -> Option<Seq<char>> {
    let stem = without_suffix(filename, ".json"@);
    let at = first_match(stem, "_to_"@, 0);
    if has_suffix(filename, ".json"@) && 0 <= at && at + 4 <= stem.len() && first_match(
        stem,
        "_to_"@,
        at + 4,
    ) < 0 {
        Some(lowercased(stem.subrange(at + 4, stem.len() as int)))
    } else {
        None
    }
}

/// Whether the message file `filename` is addressed to the bot `my_username`.
pub open spec fn is_addressed_to(filename: Seq<char>, my_username: Seq<char>) -> bool {
    addressee(filename) == Some(without_at(lowercased(my_username)))
}

fn strip_suffix(s: &Vec<char>, suffix: &Vec<char>) -> (out: Vec<char>)
    ensures
        out@ == without_suffix(s@, suffix@),
{
    let mut end: usize = s.len();
    if suffix.len() == 0 {
        assert(s@.subrange(0, s@.len() as int) =~= s@);
        return slice_of(s, 0, end);
    }
    proof {
        assert(s@.subrange(0, s@.len() as int) =~= s@);
    }
    while end >= suffix.len() && crate::text::matches_at(s, suffix, end - suffix.len())
        invariant
            end <= s@.len(),
            suffix@.len() > 0,
            without_suffix(s@, suffix@) == without_suffix(s@.subrange(0, end as int), suffix@),
        decreases end,
    {
        proof {
            let head = s@.subrange(0, end as int);
            assert(head.subrange(end - suffix@.len(), end as int) =~= s@.subrange(
                end - suffix@.len(),
                end as int,
            ));
            assert(head.subrange(0, end - suffix@.len()) =~= s@.subrange(0, end - suffix@.len()));
        }
        end = end - suffix.len();
    }
    proof {
        let head = s@.subrange(0, end as int);
        if has_suffix(head, suffix@) {
            assert(head.subrange(end - suffix@.len(), end as int) =~= s@.subrange(
                end - suffix@.len(),
                end as int,
            ));
        }
    }
    slice_of(s, 0, end)
}

fn without_leading_at(s: &Vec<char>) -> (out: Vec<char>)
    ensures
        out@ == without_at(s@),
{
    let mut start: usize = 0;
    proof {
        assert(s@.subrange(0, s@.len() as int) =~= s@);
    }
    while start < s.len() && s[start] == '@'
        invariant
            start <= s@.len(),
            without_at(s@) == without_at(s@.subrange(start as int, s@.len() as int)),
        decreases s@.len() - start,
    {
        proof {
            let tail = s@.subrange(start as int, s@.len() as int);
            assert(tail[0] == s@[start as int]);
            assert(tail.drop_first() =~= s@.subrange(start + 1, s@.len() as int));
        }
        start += 1;
    }
    proof {
        let tail = s@.subrange(start as int, s@.len() as int);
        if start < s@.len() {
            assert(tail[0] == s@[start as int]);
        }
    }
    slice_of(s, start, s.len())
}

/// Tests whether a message file is addressed to this bot. The name of the
/// file has the form `time_sender_to_receiver.json`.
pub fn is_for(filename: &str, my_username: &str) -> (r: bool)
    ensures
        r == is_addressed_to(filename@, my_username@),
{
    let name = chars_of(filename);
    let suffix = chars_of(".json");
    if !ends_with(&name, &suffix) {
        return false;
    }
    let stem = strip_suffix(&name, &suffix);
    let mark = chars_of("_to_");
    assert(mark@.len() == 4) by {
        reveal_strlit("_to_");
    }
    let me = without_leading_at(&to_lower(&chars_of(my_username)));
    match find_from(&stem, &mark, 0) {
        Some(at) => {
            proof {
                crate::memory::lemma_first_match(stem@, mark@, 0, at as int);
            }
            let total = stem.len();
            match find_from(&stem, &mark, at + 4) {
                Some(again) => {
                    proof {
                        crate::memory::lemma_first_match(stem@, mark@, at + 4, again as int);
                    }
                    false
                },
                None => {
                    proof {
                        crate::memory::lemma_first_match(stem@, mark@, at + 4, -1);
                    }
                    let to_bot = to_lower(&slice_of(&stem, at + 4, total));
                    same_chars(&to_bot, &me)
                },
            }
        },
        None => {
            proof {
                crate::memory::lemma_first_match(stem@, mark@, 0, -1);
            }
            false
        },
    }
}

impl PeerMessage {
    /// A copy of the message.
    pub fn duplicate(&self) -> (copy: PeerMessage)
        ensures
            copy == *self,
    {
        PeerMessage {
            message_id: self.message_id,
            chat_id: self.chat_id,
            from_bot: self.from_bot.clone(),
            to_bot: self.to_bot.clone(),
            text: self.text.clone(),
            timestamp: self.timestamp.clone(),
            reply_to_message_id: self.reply_to_message_id,
        }
    }
}

/// The timestamps of `messages`.
pub open spec fn timestamps(messages: Seq<PeerMessage>) -> Seq<Seq<char>> {
    messages.map_values(|m: PeerMessage| m.timestamp@)
}

/// Whether `out` holds `messages` by timestamp, oldest first; messages
/// with the same timestamp keep their order.
pub open spec fn is_by_time(messages: Seq<PeerMessage>, out: Seq<PeerMessage>) -> bool {
    exists|order: Seq<usize>| #[trigger]
        is_text_order(timestamps(messages), order) && out == arranged(messages, order)
}

/// Arranges the messages that were received by timestamp, oldest first.
pub fn by_time(messages: &Vec<PeerMessage>) -> (out: Vec<PeerMessage>)
    ensures
        is_by_time(messages@, out@),
{
    let mut keys: Vec<Vec<char>> = Vec::new();
    let mut i: usize = 0;
    while i < messages.len()
        invariant
            i <= messages@.len(),
            keys@.len() == i,
            crate::text::views(keys@) == timestamps(messages@).take(i as int),
        decreases messages@.len() - i,
    {
        let ghost before = keys@;
        keys.push(chars_of(messages[i].timestamp.as_str()));
        proof {
            let target = timestamps(messages@).take(i + 1);
            assert forall|k: int| 0 <= k < i + 1 implies crate::text::views(keys@)[k]
                == target[k] by {
                if k < i {
                    assert(crate::text::views(before)[k] == timestamps(messages@).take(i as int)[k]);
                    assert(keys@[k] == before[k]);
                }
            }
            assert(crate::text::views(keys@) =~= target);
        }
        i += 1;
    }
    assert(crate::text::views(keys@) =~= timestamps(messages@));
    let order = text_order(&keys);
    let mut out: Vec<PeerMessage> = Vec::new();
    let mut a: usize = 0;
    while a < order.len()
        invariant
            a <= order@.len(),
            is_text_order(timestamps(messages@), order@),
            out@ == arranged(messages@, order@).take(a as int),
        decreases order@.len() - a,
    {
        out.push(messages[order[a]].duplicate());
        assert(out@ =~= arranged(messages@, order@).take(a + 1));
        a += 1;
    }
    assert(out@ =~= arranged(messages@, order@));
    out
}

} // verus!
