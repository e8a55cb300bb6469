//! An in-memory index of recent messages, used to resolve replies.

use crate::message::ChatMessage;
use std::collections::HashMap;
use vstd::prelude::*;

verus! {

/// The position of the most recently added message with id `message_id`.
pub open spec fn latest(messages: Seq<ChatMessage>, message_id: i64) -> Option<int>
    decreases messages.len(),
{
    if messages.len() == 0 {
        None
    } else if messages.last().message_id == message_id {
        Some(messages.len() - 1)
    } else {
        latest(messages.drop_last(), message_id)
    }
}

/// `latest` finds position `i` exactly when `i` holds the id and no later position does.
pub proof fn lemma_latest(messages: Seq<ChatMessage>, message_id: i64)
    ensures
        match latest(messages, message_id) {
            Some(i) => {
                &&& 0 <= i < messages.len()
                &&& messages[i].message_id == message_id
                &&& forall|j: int| i < j < messages.len() ==> messages[j].message_id != message_id
            },
            None => forall|j: int| 0 <= j < messages.len() ==> messages[j].message_id != message_id,
        },
    decreases messages.len(),
{
    if messages.len() > 0 && messages.last().message_id != message_id {
        let front = messages.drop_last();
        lemma_latest(front, message_id);
        assert forall|j: int| 0 <= j < front.len() implies front[j] == messages[j] by {}
    }
}

/// `m` after an edit of its text to `new_text`: every other field is kept.
pub open spec fn edited(before: ChatMessage, after: ChatMessage, new_text: Seq<char>) -> bool {
    &&& after.text@ == new_text
    &&& after.message_id == before.message_id
    &&& after.chat_id == before.chat_id
    &&& after.user_id == before.user_id
    &&& after.username == before.username
    &&& after.timestamp == before.timestamp
    &&& after.reply_to == before.reply_to
    &&& after.image == before.image
    &&& after.voice_transcription == before.voice_transcription
    &&& after.documents == before.documents
}

/// Buffer of recent messages with lookup by message id.
pub struct ContextBuffer {
    messages: Vec<ChatMessage>,
    index: HashMap<i64, usize>,
}

impl View for ContextBuffer {
    type V = Seq<ChatMessage>;

    /// The messages in the order in which they were added.
    closed spec fn view(&self) -> Seq<ChatMessage> {
        self.messages@
    }
}

impl ContextBuffer {
    /// The index maps each id that occurs to the last position that holds it.
    pub closed spec fn wf(&self) -> bool {
        &&& forall|id: i64| #[trigger]
            self.index@.contains_key(id) ==> self.index@[id] < self.messages@.len()
                && self.messages@[self.index@[id] as int].message_id == id
        &&& forall|i: int|
            0 <= i < self.messages@.len() ==> self.index@.contains_key(
                (#[trigger] self.messages@[i]).message_id,
            ) && self.index@[self.messages@[i].message_id] >= i
    }

    proof fn lemma_index_is_latest(&self, message_id: i64)
        requires
            self.wf(),
        ensures
            latest(self@, message_id) == if self.index@.contains_key(message_id) {
                Some(self.index@[message_id] as int)
            } else {
                None
            },
    {
        lemma_latest(self@, message_id);
        if self.index@.contains_key(message_id) {
            let i = self.index@[message_id] as int;
            assert(self.messages@[i].message_id == message_id);
            match latest(self@, message_id) {
                Some(k) => {
                    assert(self.index@[self.messages@[k].message_id] >= k);
                },
                None => {},
            }
        } else {
            match latest(self@, message_id) {
                Some(k) => {
                    assert(self.index@.contains_key(self.messages@[k].message_id));
                },
                None => {},
            }
        }
    }

    /// An empty buffer.
    pub fn new() -> (buffer: Self)
        ensures
            buffer.wf(),
            buffer@ == Seq::<ChatMessage>::empty(),
    {
        Self { messages: Vec::new(), index: HashMap::new() }
    }

    /// Number of messages held.
    pub fn message_count(&self) -> (n: usize)
        ensures
            n == self@.len(),
    {
        self.messages.len()
    }

    /// The messages held, oldest first.
    pub fn messages(&self) -> (all: &Vec<ChatMessage>)
        ensures
            all@ == self@,
    {
        &self.messages
    }

    /// Adds a message at the end. A later lookup of its id finds this message.
    pub fn add_message(&mut self, msg: ChatMessage)
        requires
            old(self).wf(),
        ensures
            final(self).wf(),
            final(self)@ == old(self)@.push(msg),
    {
        broadcast use vstd::std_specs::hash::group_hash_axioms;

        let idx = self.messages.len();
        self.index.insert(msg.message_id, idx);
        self.messages.push(msg);
    }

    /// Replaces the text of the most recently added message with this id.
    /// Nothing changes when no message has the id.
    pub fn edit_message(&mut self, message_id: i64, new_text: &str)
        requires
            old(self).wf(),
        ensures
            final(self).wf(),
            final(self)@.len() == old(self)@.len(),
            match latest(old(self)@, message_id) {
                Some(i) => {
                    &&& edited(old(self)@[i], final(self)@[i], new_text@)
                    &&& forall|j: int|
                        0 <= j < old(self)@.len() && j != i ==> final(self)@[j] == old(self)@[j]
                },
                None => final(self)@ == old(self)@,
            },
    {
        broadcast use vstd::std_specs::hash::group_hash_axioms;

        proof {
            self.lemma_index_is_latest(message_id);
        }
        let found = match self.index.get(&message_id) {
            Some(idx) => Some(*idx),
            None => None,
        };
        if let Some(idx) = found {
            let ghost before = self.messages@;
            self.messages[idx].text = new_text.to_owned();
            assert forall|i: int| 0 <= i < self.messages@.len() implies self.index@.contains_key(
                (#[trigger] self.messages@[i]).message_id,
            ) && self.index@[self.messages@[i].message_id] >= i by {
                assert(self.messages@[i].message_id == before[i].message_id);
            }
        }
    }

    /// The most recently added message with this id, if any.
    pub fn get_message(&self, message_id: i64) -> (found: Option<&ChatMessage>)
        requires
            self.wf(),
        ensures
            found == match latest(self@, message_id) {
                Some(i) => Some(&self@[i]),
                None => None,
            },
    {
        broadcast use vstd::std_specs::hash::group_hash_axioms;

        proof {
            self.lemma_index_is_latest(message_id);
        }
        match self.index.get(&message_id) {
            Some(idx) => Some(&self.messages[*idx]),
            None => None,
        }
    }

    /// A buffer holding `messages`, with the index built anew.
    pub fn from_messages(messages: Vec<ChatMessage>) -> (buffer: Self)
        ensures
            buffer.wf(),
            buffer@ == messages@,
    {
        let mut buffer = Self { messages, index: HashMap::new() };
        buffer.rebuild_index();
        buffer
    }

    /// The buffer restored from a saved snapshot, or an empty one when there is none.
    pub fn load_or_new(snapshot: Option<Vec<ChatMessage>>) -> (buffer: Self)
        ensures
            buffer.wf(),
            buffer@ == match snapshot {
                Some(messages) => messages@,
                None => Seq::<ChatMessage>::empty(),
            },
    {
        match snapshot {
            Some(messages) => Self::from_messages(messages),
            None => Self::new(),
        }
    }

    fn rebuild_index(&mut self)
        ensures
            final(self).wf(),
            final(self)@ == old(self)@,
    {
        broadcast use vstd::std_specs::hash::group_hash_axioms;

        self.index.clear();
        let mut i: usize = 0;
        while i < self.messages.len()
            invariant
                i <= self.messages@.len(),
                self.messages@ == old(self).messages@,
                forall|id: i64| #[trigger]
                    self.index@.contains_key(id) ==> self.index@[id] < i
                        && self.messages@[self.index@[id] as int].message_id == id,
                forall|k: int|
                    0 <= k < i ==> self.index@.contains_key(
                        (#[trigger] self.messages@[k]).message_id,
                    ) && self.index@[self.messages@[k].message_id] >= k,
            decreases self.messages@.len() - i,
        {
            let id = self.messages[i].message_id;
            self.index.insert(id, i);
            i += 1;
        }
    }
}

} // verus!
