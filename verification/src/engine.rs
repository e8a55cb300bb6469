//! The dispatch engine's data: the chatbot's configuration, the pending
//! batch, and the texts that a batch and a restoration are sent as.

use crate::message::ChatMessage;
use crate::text::{decimal, push_decimal, push_str, string_of};
use std::collections::HashMap;
use vstd::prelude::*;

verus! {

/// Most iterations of the tool-call loop within one turn.
pub const MAX_ITERATIONS: usize = 10;

/// Token budget of the messages that are replayed after a compaction.
pub const COMPACTION_RESTORE_TOKENS: usize = 10000;

/// A trusted user with id and optional username.
#[derive(Clone, Debug)]
pub struct TrustedUser {
    pub id: i64,
    pub username: Option<String>,
}

/// `@username (id)`, or the id alone for a user without username.
pub open spec fn trusted_user_text(user_id: i64, username: Option<Seq<char>>) -> Seq<char> {
    match username {
        Some(name) => "@"@ + name + " ("@ + decimal(user_id as int) + ")"@,
        None => decimal(user_id as int),
    }
}

/// The text of an optional string.
pub open spec fn opt_text(text: Option<String>) -> Option<Seq<char>> {
    match text {
        Some(t) => Some(t@),
        None => None,
    }
}

/// Formats a trusted user for display: `@username (id)`, or just the id.
pub fn format_trusted_user(user_id: i64, username: Option<&str>) -> (out: String)
    ensures
        out@ == trusted_user_text(
            user_id,
            match username {
                Some(name) => Some(name@),
                None => None,
            },
        ),
{
    let mut buf: Vec<char> = Vec::new();
    match username {
        Some(name) => {
            push_str(&mut buf, "@");
            push_str(&mut buf, name);
            push_str(&mut buf, " (");
            push_decimal(&mut buf, user_id);
            push_str(&mut buf, ")");
            assert(buf@ =~= "@"@ + name@ + " ("@ + decimal(user_id as int) + ")"@);
        },
        None => {
            push_decimal(&mut buf, user_id);
        },
    }
    string_of(&buf)
}

impl TrustedUser {
    pub fn with_username(id: i64, username: Option<String>) -> (user: Self)
        ensures
            user.id == id,
            user.username == username,
    {
        Self { id, username }
    }

    /// `@username (id)`, or just the id for a user without username.
    pub fn display(&self) -> (out: String)
        ensures
            out@ == trusted_user_text(self.id, opt_text(self.username)),
    {
        match &self.username {
            Some(name) => format_trusted_user(self.id, Some(name.as_str())),
            None => format_trusted_user(self.id, None),
        }
    }
}

/// Configuration of the chatbot.
#[derive(Clone, Debug)]
pub struct ChatbotConfig {
    /// The group that is meant where a tool names no chat.
    pub primary_chat_id: i64,
    pub bot_user_id: i64,
    pub bot_username: Option<String>,
    /// The bot's owner.
    pub owner: Option<TrustedUser>,
    /// Users besides the owner who may write to the bot in private, with
    /// their usernames where known.
    pub trusted_dm_users: HashMap<i64, Option<String>>,
    /// Where the configuration is written back to.
    pub config_path: Option<String>,
    pub debounce_ms: u64,
    pub data_dir: Option<String>,
    pub gemini_api_key: Option<String>,
    pub tts_endpoint: Option<String>,
    /// Replaces the standard description of the bot's identity.
    pub personality: Option<String>,
    /// Minutes between scheduled scans; 0 disables them.
    pub scan_interval_minutes: u32,
    pub peer_bots: Vec<String>,
}

impl Default for ChatbotConfig {
    fn default() -> (config: Self)
        ensures
            config.primary_chat_id == 0,
            config.bot_user_id == 0,
            config.bot_username is None,
            config.owner is None,
            config.trusted_dm_users@.len() == 0,
            config.config_path is None,
            config.debounce_ms == 1000,
            config.data_dir is None,
            config.gemini_api_key is None,
            config.tts_endpoint is None,
            config.personality is None,
            config.scan_interval_minutes == 0,
            config.peer_bots@.len() == 0,
    {
        Self {
            primary_chat_id: 0,
            bot_user_id: 0,
            bot_username: None,
            owner: None,
            trusted_dm_users: HashMap::new(),
            config_path: None,
            debounce_ms: 1000,
            data_dir: None,
            gemini_api_key: None,
            tts_endpoint: None,
            personality: None,
            scan_interval_minutes: 0,
            peer_bots: Vec::new(),
        }
    }
}

/// Whether a request from `requester` in chat `chat` may change who is
/// trusted: it must come from the owner, in the owner's private chat.
pub open spec fn authorization(owner: Option<i64>, requester: Option<i64>, chat: Option<i64>) -> Result<
    (),
    Seq<char>,
> {
    match owner {
        None => Err("No owner configured"@),
        Some(owner_id) => match requester {
            None => Err("Cannot determine requesting user"@),
            Some(user) => match chat {
                None => Err("Cannot determine chat"@),
                Some(chat_id) => if user != owner_id {
                    Err("Only the owner can manage trusted users"@)
                } else if chat_id != owner_id {
                    Err("This command only works in DM with the bot"@)
                } else {
                    Ok(())
                },
            },
        },
    }
}

/// The id of the configured owner.
pub open spec fn owner_id(config: ChatbotConfig) -> Option<i64> {
    match config.owner {
        Some(owner) => Some(owner.id),
        None => None,
    }
}

/// The texts that a check holds, on the side of the error.
pub open spec fn check_view(r: Result<(), String>) -> Result<(), Seq<char>> {
    match r {
        Ok(()) => Ok(()),
        Err(e) => Err(e@),
    }
}

/// Checks that the requesting user is the owner and that the request came
/// in the owner's private chat, whose id is the owner's id.
pub fn check_owner_dm_authorization(
    config: &ChatbotConfig,
    requesting_user_id: Option<i64>,
    requesting_chat_id: Option<i64>,
) -> (r: Result<(), String>)
    ensures
        check_view(r) == authorization(owner_id(*config), requesting_user_id, requesting_chat_id),
{
    let owner_id = match &config.owner {
        Some(owner) => owner.id,
        None => return Err("No owner configured".to_owned()),
    };
    let requester = match requesting_user_id {
        Some(user) => user,
        None => return Err("Cannot determine requesting user".to_owned()),
    };
    let chat_id = match requesting_chat_id {
        Some(chat) => chat,
        None => return Err("Cannot determine chat".to_owned()),
    };
    if requester != owner_id {
        return Err("Only the owner can manage trusted users".to_owned());
    }
    if chat_id != owner_id {
        return Err("This command only works in DM with the bot".to_owned());
    }
    Ok(())
}

/// The messages accumulated since the last flush, in arrival order.
pub struct PendingBatch {
    messages: Vec<ChatMessage>,
}

impl View for PendingBatch {
    type V = Seq<ChatMessage>;

    closed spec fn view(&self) -> Seq<ChatMessage> {
        self.messages@
    }
}

impl PendingBatch {
    /// An empty batch.
    pub fn new() -> (batch: Self)
        ensures
            batch@ == Seq::<ChatMessage>::empty(),
    {
        Self { messages: Vec::new() }
    }

    /// Number of messages waiting.
    pub fn len(&self) -> (n: usize)
        ensures
            n == self@.len(),
    {
        self.messages.len()
    }

    /// Appends a message.
    pub fn push(&mut self, msg: ChatMessage)
        ensures
            final(self)@ == old(self)@.push(msg),
    {
        self.messages.push(msg);
    }

    /// Takes the whole batch out and leaves a fresh empty one in place.
    pub fn take(&mut self) -> (messages: Vec<ChatMessage>)
        ensures
            messages@ == old(self)@,
            final(self)@ == Seq::<ChatMessage>::empty(),
    {
        let mut taken: Vec<ChatMessage> = Vec::new();
        std::mem::swap(&mut self.messages, &mut taken);
        taken
    }
}

/// The rendered messages `messages`, one per line.
pub open spec fn message_lines(messages: Seq<ChatMessage>) -> Seq<char>
    decreases messages.len(),
{
    if messages.len() == 0 {
        Seq::empty()
    } else {
        message_lines(messages.drop_last()) + messages.last().formatted() + "\n"@
    }
}

/// Formats a batch for the reasoner: a heading and one rendered message per line.
pub fn format_messages(messages: &Vec<ChatMessage>) -> (out: String)
    ensures
        out@ == "New messages:\n\n"@ + message_lines(messages@),
{
    let mut buf: Vec<char> = Vec::new();
    push_str(&mut buf, "New messages:\n\n");
    let mut i: usize = 0;
    while i < messages.len()
        invariant
            i <= messages@.len(),
            buf@ == "New messages:\n\n"@ + message_lines(messages@.take(i as int)),
        decreases messages@.len() - i,
    {
        let ghost before = buf@;
        let line = messages[i].format();
        push_str(&mut buf, line.as_str());
        push_str(&mut buf, "\n");
        proof {
            assert(messages@.take(i + 1).drop_last() =~= messages@.take(i as int));
            assert(messages@.take(i + 1).last() == messages@[i as int]);
            assert(buf@ =~= before + messages@[i as int].formatted() + "\n"@);
        }
        i += 1;
    }
    proof {
        assert(messages@.take(messages@.len() as int) =~= messages@);
    }
    string_of(&buf)
}

/// The position of the first message of `messages` that carries an image.
pub open spec fn first_image(messages: Seq<ChatMessage>) -> Option<int>
    decreases messages.len(),
{
    if messages.len() == 0 {
        None
    } else {
        match first_image(messages.drop_last()) {
            Some(i) => Some(i),
            None => if messages.last().image is Some {
                Some(messages.len() - 1)
            } else {
                None
            },
        }
    }
}

/// Finds the first message of the batch that carries an image. At most
/// this one image is attached to the batch's turn.
pub fn first_image_of(messages: &Vec<ChatMessage>) -> (found: Option<usize>)
    ensures
        match found {
            Some(i) => first_image(messages@) == Some(i as int) && i < messages@.len()
                && messages@[i as int].image is Some,
            None => first_image(messages@) is None,
        },
{
    let mut i: usize = 0;
    while i < messages.len()
        invariant
            i <= messages@.len(),
            first_image(messages@.take(i as int)) is None,
        decreases messages@.len() - i,
    {
        proof {
            assert(messages@.take(i + 1).drop_last() =~= messages@.take(i as int));
            assert(messages@.take(i + 1).last() == messages@[i as int]);
        }
        if messages[i].image.is_some() {
            proof {
                lemma_first_image_stays(messages@, i as int + 1);
            }
            return Some(i);
        }
        i += 1;
    }
    proof {
        assert(messages@.take(messages@.len() as int) =~= messages@);
    }
    None
}

proof fn lemma_first_image_stays(messages: Seq<ChatMessage>, n: int)
    requires
        0 <= n <= messages.len(),
        first_image(messages.take(n)) is Some,
    ensures
        first_image(messages) == first_image(messages.take(n)),
    decreases messages.len() - n,
{
    if n < messages.len() {
        assert(messages.take(n + 1).drop_last() =~= messages.take(n));
        lemma_first_image_stays(messages, n + 1);
    } else {
        assert(messages.take(n) =~= messages);
    }
}

/// The text that goes with the image of message `msg` in the batch's turn.
pub open spec fn image_label(msg: ChatMessage) -> Seq<char> {
    "Image from "@ + msg.username@ + " (msg "@ + decimal(msg.message_id as int) + "):"@
}

/// The text of the batch's turn: the formatted batch and, where a message
/// carries an image, the label of the first such message.
pub open spec fn batch_text(messages: Seq<ChatMessage>) -> Seq<char> {
    match first_image(messages) {
        Some(i) => "New messages:\n\n"@ + message_lines(messages) + "\n\n"@ + image_label(
            messages[i],
        ),
        None => "New messages:\n\n"@ + message_lines(messages),
    }
}

/// The text of the turn that presents the batch to the reasoner.
pub fn batch_payload(messages: &Vec<ChatMessage>) -> (out: String)
    ensures
        out@ == batch_text(messages@),
{
    let content = format_messages(messages);
    match first_image_of(messages) {
        Some(i) => {
            let msg = &messages[i];
            let mut buf: Vec<char> = Vec::new();
            push_str(&mut buf, content.as_str());
            push_str(&mut buf, "\n\n");
            push_str(&mut buf, "Image from ");
            push_str(&mut buf, msg.username.as_str());
            push_str(&mut buf, " (msg ");
            push_decimal(&mut buf, msg.message_id);
            push_str(&mut buf, "):");
            assert(buf@ =~= batch_text(messages@));
            string_of(&buf)
        },
        None => content,
    }
}

/// The message and chat that a reply is threaded to by default: those of
/// the batch's last message.
pub open spec fn reply_default(messages: Seq<ChatMessage>) -> Option<(i64, i64)> {
    if messages.len() == 0 {
        None
    } else {
        Some((messages.last().message_id, messages.last().chat_id))
    }
}

/// The user and chat on whose behalf the batch is processed: those of the
/// last message that is not from the system.
pub open spec fn requester_of(messages: Seq<ChatMessage>) -> Option<(i64, i64)>
    decreases messages.len(),
{
    if messages.len() == 0 {
        None
    } else if messages.last().user_id != 0 {
        Some((messages.last().user_id, messages.last().chat_id))
    } else {
        requester_of(messages.drop_last())
    }
}

/// Finds the message and chat that replies are threaded to by default.
pub fn default_reply_to(messages: &Vec<ChatMessage>) -> (r: Option<(i64, i64)>)
    ensures
        r == reply_default(messages@),
{
    if messages.len() == 0 {
        None
    } else {
        let last = &messages[messages.len() - 1];
        Some((last.message_id, last.chat_id))
    }
}

/// Finds the user and chat on whose behalf the batch is processed.
pub fn requesting_user(messages: &Vec<ChatMessage>) -> (r: Option<(i64, i64)>)
    ensures
        r == requester_of(messages@),
{
    let mut i: usize = messages.len();
    proof {
        assert(messages@.take(messages@.len() as int) =~= messages@);
    }
    while i > 0
        invariant
            i <= messages@.len(),
            requester_of(messages@) == requester_of(messages@.take(i as int)),
        decreases i,
    {
        let msg = &messages[i - 1];
        proof {
            assert(messages@.take(i as int).last() == messages@[i - 1]);
            assert(messages@.take(i as int).drop_last() =~= messages@.take(i - 1));
        }
        if msg.user_id != 0 {
            return Some((msg.user_id, msg.chat_id));
        }
        i -= 1;
    }
    None
}

/// The renderings of `messages`, in order.
pub open spec fn renderings(messages: Seq<ChatMessage>) -> Seq<Seq<char>> {
    messages.map_values(|m: ChatMessage| m.formatted())
}

fn render_all(messages: &Vec<ChatMessage>) -> (lines: Vec<Vec<char>>)
    ensures
        crate::text::views(lines@) == renderings(messages@),
{
    let mut lines: Vec<Vec<char>> = Vec::new();
    let mut i: usize = 0;
    while i < messages.len()
        invariant
            i <= messages@.len(),
            lines@.len() == i,
            forall|k: int| 0 <= k < i ==> (#[trigger] lines@[k])@ == messages@[k].formatted(),
        decreases messages@.len() - i,
    {
        let line = messages[i].format();
        lines.push(crate::text::chars_of(line.as_str()));
        i += 1;
    }
    assert(crate::text::views(lines@) =~= renderings(messages@));
    lines
}

/// The text of the turn that restores context after a compaction: the
/// persistent memory file if there is one, then the recent messages.
pub open spec fn restoration_text(readme: Option<Seq<char>>, recent: Seq<ChatMessage>) -> Seq<
    char,
> {
    "Context was compacted.\n\n"@ + match readme {
        Some(text) => "## Your Persistent Memory (memories/README.md)\n\n"@ + text + "\n\n"@,
        None => Seq::empty(),
    } + if recent.len() > 0 {
        "## Recent Messages ("@ + decimal(recent.len() as int) + " messages)\n\n"@
            + crate::text::joined(renderings(recent), "\n"@)
    } else {
        Seq::empty()
    }
}

/// Builds the restoration payload from the content of the persistent
/// memory file, if it exists, and the recent messages of the archive.
pub fn restoration_payload(readme: Option<&str>, recent: &Vec<ChatMessage>) -> (out: String)
    ensures
        out@ == restoration_text(
            match readme {
                Some(text) => Some(text@),
                None => None,
            },
            recent@,
        ),
{
    let mut buf: Vec<char> = Vec::new();
    push_str(&mut buf, "Context was compacted.\n\n");
    match readme {
        Some(text) => {
            push_str(&mut buf, "## Your Persistent Memory (memories/README.md)\n\n");
            push_str(&mut buf, text);
            push_str(&mut buf, "\n\n");
        },
        None => {},
    }
    let ghost head = buf@;
    if recent.len() > 0 {
        let mut tail: Vec<char> = Vec::new();
        push_str(&mut tail, "## Recent Messages (");
        crate::text::push_unsigned(&mut tail, recent.len() as u128);
        push_str(&mut tail, " messages)\n\n");
        let lines = render_all(recent);
        let body = crate::text::join(&lines, "\n");
        crate::text::push_all(&mut tail, &body);
        crate::text::push_all(&mut buf, &tail);
    }
    string_of(&buf)
}

} // verus!
