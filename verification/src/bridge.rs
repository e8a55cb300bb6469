//! The bridge to the reasoner: a persistent child process that reads one
//! JSON frame per turn and answers with a stream of frames, the last of which
//! carries the tool intents.
//!
//! This module holds what the bridge decides: which frames end the
//! handshake and the turn, when a turn was compacted, and how raw intents
//! become typed ones. Starting the process and moving bytes is left to the
//! caller.

use crate::text::{clone_text, decimal, push_str, push_unsigned, str_eq, string_of};
use crate::tools::ToolCall;
use vstd::prelude::*;

verus! {

/// Tool call with the id under which its result is reported.
#[derive(Clone, Debug)]
pub struct ToolCallWithId {
    pub id: String,
    pub call: ToolCall,
}

/// What a tool execution gave: optional text for the reasoner, whether it
/// failed, and an optional image (bytes and media type).
#[derive(Clone, Debug)]
pub struct ToolResult {
    pub tool_use_id: String,
    pub content: Option<String>,
    pub is_error: bool,
    pub image: Option<(Vec<u8>, String)>,
}

/// Response of the reasoner to one turn.
#[derive(Clone, Debug)]
pub struct Response {
    pub tool_calls: Vec<ToolCallWithId>,
    /// True if the reasoner truncated its context during this turn.
    pub compacted: bool,
}

/// A tool intent as the reasoner writes it: the tool's name and an open set
/// of optional scalar fields. The key `prompt` is read into `text`.
#[derive(Clone, Debug)]
pub struct RawToolCall {
    pub tool: String,
    pub chat_id: Option<i64>,
    pub text: Option<String>,
    pub reply_to_message_id: Option<i64>,
    pub user_id: Option<i64>,
    pub message_id: Option<i64>,
    pub emoji: Option<String>,
    pub last_n: Option<i64>,
    pub from_date: Option<String>,
    pub to_date: Option<String>,
    pub username: Option<String>,
    pub limit: Option<i64>,
    pub query: Option<String>,
    pub duration_minutes: Option<i64>,
    pub days_inactive: Option<i64>,
    pub filter: Option<String>,
    pub file_path: Option<String>,
    pub caption: Option<String>,
    pub voice: Option<String>,
    pub path: Option<String>,
    pub content: Option<String>,
    pub old_string: Option<String>,
    pub new_string: Option<String>,
    pub pattern: Option<String>,
    pub description: Option<String>,
    pub severity: Option<String>,
    pub url: Option<String>,
    pub sql: Option<String>,
    pub message: Option<String>,
    pub trigger_at: Option<String>,
    pub repeat_cron: Option<String>,
    pub reminder_id: Option<i64>,
}

impl RawToolCall {
    /// Whether the intent names a tool of the vocabulary and carries every
    /// field that the tool requires.
    pub open spec fn translatable(self) -> bool {
        if self.tool@ == "send_message"@ {
            self.chat_id is Some && self.text is Some
        } else if self.tool@ == "get_user_info"@ {
            true
        } else if self.tool@ == "query"@ {
            self.sql is Some
        } else if self.tool@ == "add_reaction"@ {
            self.chat_id is Some && self.message_id is Some && self.emoji is Some
        } else if self.tool@ == "delete_message"@ {
            self.chat_id is Some && self.message_id is Some
        } else if self.tool@ == "mute_user"@ {
            self.chat_id is Some && self.user_id is Some && self.duration_minutes is Some
        } else if self.tool@ == "ban_user"@ {
            self.chat_id is Some && self.user_id is Some
        } else if self.tool@ == "kick_user"@ {
            self.chat_id is Some && self.user_id is Some
        } else if self.tool@ == "get_chat_admins"@ {
            self.chat_id is Some
        } else if self.tool@ == "get_members"@ {
            true
        } else if self.tool@ == "import_members"@ {
            self.file_path is Some
        } else if self.tool@ == "send_photo"@ {
            self.chat_id is Some && self.text is Some
        } else if self.tool@ == "send_voice"@ {
            self.chat_id is Some && self.text is Some
        } else if self.tool@ == "create_memory"@ {
            self.path is Some && self.content is Some
        } else if self.tool@ == "read_memory"@ {
            self.path is Some
        } else if self.tool@ == "edit_memory"@ {
            self.path is Some && self.old_string is Some && self.new_string is Some
        } else if self.tool@ == "list_memories"@ {
            true
        } else if self.tool@ == "search_memories"@ {
            self.pattern is Some
        } else if self.tool@ == "delete_memory"@ {
            self.path is Some
        } else if self.tool@ == "report_bug"@ {
            self.description is Some
        } else if self.tool@ == "youtube_info"@ {
            self.url is Some
        } else if self.tool@ == "noop"@ {
            true
        } else if self.tool@ == "set_reminder"@ {
            self.chat_id is Some && self.message is Some && self.trigger_at is Some
        } else if self.tool@ == "list_reminders"@ {
            true
        } else if self.tool@ == "cancel_reminder"@ {
            self.reminder_id is Some
        } else if self.tool@ == "add_trusted_user"@ {
            self.user_id is Some
        } else if self.tool@ == "remove_trusted_user"@ {
            self.user_id is Some
        } else if self.tool@ == "done"@ {
            true
        } else {
            false
        }
    }

    /// Whether `call` is the typed form of this intent.
    pub open spec fn translates(self, call: ToolCall) -> bool {
        match call {
            ToolCall::SendMessage { chat_id, text, reply_to_message_id } => {
                &&& self.tool@ == "send_message"@
                &&& self.chat_id == Some(chat_id)
                &&& self.text == Some(text)
                &&& self.reply_to_message_id == reply_to_message_id
            },
            ToolCall::GetUserInfo { user_id, username } => {
                &&& self.tool@ == "get_user_info"@
                &&& self.user_id == user_id
                &&& self.username == username
            },
            ToolCall::Query { sql } => {
                &&& self.tool@ == "query"@
                &&& self.sql == Some(sql)
            },
            ToolCall::AddReaction { chat_id, message_id, emoji } => {
                &&& self.tool@ == "add_reaction"@
                &&& self.chat_id == Some(chat_id)
                &&& self.message_id == Some(message_id)
                &&& self.emoji == Some(emoji)
            },
            ToolCall::DeleteMessage { chat_id, message_id } => {
                &&& self.tool@ == "delete_message"@
                &&& self.chat_id == Some(chat_id)
                &&& self.message_id == Some(message_id)
            },
            ToolCall::MuteUser { chat_id, user_id, duration_minutes } => {
                &&& self.tool@ == "mute_user"@
                &&& self.chat_id == Some(chat_id)
                &&& self.user_id == Some(user_id)
                &&& self.duration_minutes == Some(duration_minutes)
            },
            ToolCall::BanUser { chat_id, user_id } => {
                &&& self.tool@ == "ban_user"@
                &&& self.chat_id == Some(chat_id)
                &&& self.user_id == Some(user_id)
            },
            ToolCall::KickUser { chat_id, user_id } => {
                &&& self.tool@ == "kick_user"@
                &&& self.chat_id == Some(chat_id)
                &&& self.user_id == Some(user_id)
            },
            ToolCall::GetChatAdmins { chat_id } => {
                &&& self.tool@ == "get_chat_admins"@
                &&& self.chat_id == Some(chat_id)
            },
            ToolCall::GetMembers { filter, days_inactive, limit } => {
                &&& self.tool@ == "get_members"@
                &&& self.filter == filter
                &&& self.days_inactive == days_inactive
                &&& self.limit == limit
            },
            ToolCall::ImportMembers { file_path } => {
                &&& self.tool@ == "import_members"@
                &&& self.file_path == Some(file_path)
            },
            ToolCall::SendPhoto { chat_id, prompt, caption, reply_to_message_id } => {
                &&& self.tool@ == "send_photo"@
                &&& self.chat_id == Some(chat_id)
                &&& self.text == Some(prompt)
                &&& self.caption == caption
                &&& self.reply_to_message_id == reply_to_message_id
            },
            ToolCall::SendVoice { chat_id, text, voice, reply_to_message_id } => {
                &&& self.tool@ == "send_voice"@
                &&& self.chat_id == Some(chat_id)
                &&& self.text == Some(text)
                &&& self.voice == voice
                &&& self.reply_to_message_id == reply_to_message_id
            },
            ToolCall::CreateMemory { path, content } => {
                &&& self.tool@ == "create_memory"@
                &&& self.path == Some(path)
                &&& self.content == Some(content)
            },
            ToolCall::ReadMemory { path } => {
                &&& self.tool@ == "read_memory"@
                &&& self.path == Some(path)
            },
            ToolCall::EditMemory { path, old_string, new_string } => {
                &&& self.tool@ == "edit_memory"@
                &&& self.path == Some(path)
                &&& self.old_string == Some(old_string)
                &&& self.new_string == Some(new_string)
            },
            ToolCall::ListMemories { path } => {
                &&& self.tool@ == "list_memories"@
                &&& self.path == path
            },
            ToolCall::SearchMemories { pattern, path } => {
                &&& self.tool@ == "search_memories"@
                &&& self.pattern == Some(pattern)
                &&& self.path == path
            },
            ToolCall::DeleteMemory { path } => {
                &&& self.tool@ == "delete_memory"@
                &&& self.path == Some(path)
            },
            ToolCall::ReportBug { description, severity } => {
                &&& self.tool@ == "report_bug"@
                &&& self.description == Some(description)
                &&& self.severity == severity
            },
            ToolCall::YoutubeInfo { url } => {
                &&& self.tool@ == "youtube_info"@
                &&& self.url == Some(url)
            },
            ToolCall::Noop => self.tool@ == "noop"@,
            ToolCall::SetReminder { chat_id, message, trigger_at, repeat_cron } => {
                &&& self.tool@ == "set_reminder"@
                &&& self.chat_id == Some(chat_id)
                &&& self.message == Some(message)
                &&& self.trigger_at == Some(trigger_at)
                &&& self.repeat_cron == repeat_cron
            },
            ToolCall::ListReminders { chat_id } => {
                &&& self.tool@ == "list_reminders"@
                &&& self.chat_id == chat_id
            },
            ToolCall::CancelReminder { reminder_id } => {
                &&& self.tool@ == "cancel_reminder"@
                &&& self.reminder_id == Some(reminder_id)
            },
            ToolCall::AddTrustedUser { user_id } => {
                &&& self.tool@ == "add_trusted_user"@
                &&& self.user_id == Some(user_id)
            },
            ToolCall::RemoveTrustedUser { user_id } => {
                &&& self.tool@ == "remove_trusted_user"@
                &&& self.user_id == Some(user_id)
            },
            ToolCall::Done => self.tool@ == "done"@,
            ToolCall::ParseError { .. } => false,
        }
    }

    /// Translates the intent into its typed form. An intent that names no
    /// tool of the vocabulary, or that lacks a required field, has none.
    pub fn to_tool_call(&self) -> (r: Option<ToolCall>)
        ensures
            match r {
                Some(call) => self.translatable() && self.translates(call),
                None => !self.translatable(),
            },
    {
        let tool = self.tool.as_str();
        if str_eq(tool, "send_message") {
            match (&self.chat_id, &self.text) {
                (Some(chat_id), Some(text)) => Some(
                    ToolCall::SendMessage {
                        chat_id: *chat_id,
                        text: text.clone(),
                        reply_to_message_id: self.reply_to_message_id,
                    },
                ),
                _ => None,
            }
        } else if str_eq(tool, "get_user_info") {
            Some(
                ToolCall::GetUserInfo {
                    user_id: self.user_id,
                    username: clone_text(&self.username),
                },
            )
        } else if str_eq(tool, "query") {
            match &self.sql {
                Some(sql) => Some(
                    ToolCall::Query {
                        sql: sql.clone(),
                    },
                ),
                _ => None,
            }
        } else if str_eq(tool, "add_reaction") {
            match (&self.chat_id, &self.message_id, &self.emoji) {
                (Some(chat_id), Some(message_id), Some(emoji)) => Some(
                    ToolCall::AddReaction {
                        chat_id: *chat_id,
                        message_id: *message_id,
                        emoji: emoji.clone(),
                    },
                ),
                _ => None,
            }
        } else if str_eq(tool, "delete_message") {
            match (&self.chat_id, &self.message_id) {
                (Some(chat_id), Some(message_id)) => Some(
                    ToolCall::DeleteMessage {
                        chat_id: *chat_id,
                        message_id: *message_id,
                    },
                ),
                _ => None,
            }
        } else if str_eq(tool, "mute_user") {
            match (&self.chat_id, &self.user_id, &self.duration_minutes) {
                (Some(chat_id), Some(user_id), Some(duration_minutes)) => Some(
                    ToolCall::MuteUser {
                        chat_id: *chat_id,
                        user_id: *user_id,
                        duration_minutes: *duration_minutes,
                    },
                ),
                _ => None,
            }
        } else if str_eq(tool, "ban_user") {
            match (&self.chat_id, &self.user_id) {
                (Some(chat_id), Some(user_id)) => Some(
                    ToolCall::BanUser {
                        chat_id: *chat_id,
                        user_id: *user_id,
                    },
                ),
                _ => None,
            }
        } else if str_eq(tool, "kick_user") {
            match (&self.chat_id, &self.user_id) {
                (Some(chat_id), Some(user_id)) => Some(
                    ToolCall::KickUser {
                        chat_id: *chat_id,
                        user_id: *user_id,
                    },
                ),
                _ => None,
            }
        } else if str_eq(tool, "get_chat_admins") {
            match &self.chat_id {
                Some(chat_id) => Some(
                    ToolCall::GetChatAdmins {
                        chat_id: *chat_id,
                    },
                ),
                _ => None,
            }
        } else if str_eq(tool, "get_members") {
            Some(
                ToolCall::GetMembers {
                    filter: clone_text(&self.filter),
                    days_inactive: self.days_inactive,
                    limit: self.limit,
                },
            )
        } else if str_eq(tool, "import_members") {
            match &self.file_path {
                Some(file_path) => Some(
                    ToolCall::ImportMembers {
                        file_path: file_path.clone(),
                    },
                ),
                _ => None,
            }
        } else if str_eq(tool, "send_photo") {
            match (&self.chat_id, &self.text) {
                (Some(chat_id), Some(prompt)) => Some(
                    ToolCall::SendPhoto {
                        chat_id: *chat_id,
                        prompt: prompt.clone(),
                        caption: clone_text(&self.caption),
                        reply_to_message_id: self.reply_to_message_id,
                    },
                ),
                _ => None,
            }
        } else if str_eq(tool, "send_voice") {
            match (&self.chat_id, &self.text) {
                (Some(chat_id), Some(text)) => Some(
                    ToolCall::SendVoice {
                        chat_id: *chat_id,
                        text: text.clone(),
                        voice: clone_text(&self.voice),
                        reply_to_message_id: self.reply_to_message_id,
                    },
                ),
                _ => None,
            }
        } else if str_eq(tool, "create_memory") {
            match (&self.path, &self.content) {
                (Some(path), Some(content)) => Some(
                    ToolCall::CreateMemory {
                        path: path.clone(),
                        content: content.clone(),
                    },
                ),
                _ => None,
            }
        } else if str_eq(tool, "read_memory") {
            match &self.path {
                Some(path) => Some(
                    ToolCall::ReadMemory {
                        path: path.clone(),
                    },
                ),
                _ => None,
            }
        } else if str_eq(tool, "edit_memory") {
            match (&self.path, &self.old_string, &self.new_string) {
                (Some(path), Some(old_string), Some(new_string)) => Some(
                    ToolCall::EditMemory {
                        path: path.clone(),
                        old_string: old_string.clone(),
                        new_string: new_string.clone(),
                    },
                ),
                _ => None,
            }
        } else if str_eq(tool, "list_memories") {
            Some(
                ToolCall::ListMemories {
                    path: clone_text(&self.path),
                },
            )
        } else if str_eq(tool, "search_memories") {
            match &self.pattern {
                Some(pattern) => Some(
                    ToolCall::SearchMemories {
                        pattern: pattern.clone(),
                        path: clone_text(&self.path),
                    },
                ),
                _ => None,
            }
        } else if str_eq(tool, "delete_memory") {
            match &self.path {
                Some(path) => Some(
                    ToolCall::DeleteMemory {
                        path: path.clone(),
                    },
                ),
                _ => None,
            }
        } else if str_eq(tool, "report_bug") {
            match &self.description {
                Some(description) => Some(
                    ToolCall::ReportBug {
                        description: description.clone(),
                        severity: clone_text(&self.severity),
                    },
                ),
                _ => None,
            }
        } else if str_eq(tool, "youtube_info") {
            match &self.url {
                Some(url) => Some(
                    ToolCall::YoutubeInfo {
                        url: url.clone(),
                    },
                ),
                _ => None,
            }
        } else if str_eq(tool, "noop") {
            Some(ToolCall::Noop)
        } else if str_eq(tool, "set_reminder") {
            match (&self.chat_id, &self.message, &self.trigger_at) {
                (Some(chat_id), Some(message), Some(trigger_at)) => Some(
                    ToolCall::SetReminder {
                        chat_id: *chat_id,
                        message: message.clone(),
                        trigger_at: trigger_at.clone(),
                        repeat_cron: clone_text(&self.repeat_cron),
                    },
                ),
                _ => None,
            }
        } else if str_eq(tool, "list_reminders") {
            Some(
                ToolCall::ListReminders {
                    chat_id: self.chat_id,
                },
            )
        } else if str_eq(tool, "cancel_reminder") {
            match &self.reminder_id {
                Some(reminder_id) => Some(
                    ToolCall::CancelReminder {
                        reminder_id: *reminder_id,
                    },
                ),
                _ => None,
            }
        } else if str_eq(tool, "add_trusted_user") {
            match &self.user_id {
                Some(user_id) => Some(
                    ToolCall::AddTrustedUser {
                        user_id: *user_id,
                    },
                ),
                _ => None,
            }
        } else if str_eq(tool, "remove_trusted_user") {
            match &self.user_id {
                Some(user_id) => Some(
                    ToolCall::RemoveTrustedUser {
                        user_id: *user_id,
                    },
                ),
                _ => None,
            }
        } else if str_eq(tool, "done") {
            Some(ToolCall::Done)
        } else {
            None
        }
    }
}

/// The positions of the translatable intents among `raws`, in order.
pub open spec fn kept(raws: Seq<RawToolCall>) -> Seq<int>
    decreases raws.len(),
{
    if raws.len() == 0 {
        Seq::empty()
    } else if raws.last().translatable() {
        kept(raws.drop_last()).push(raws.len() - 1)
    } else {
        kept(raws.drop_last())
    }
}

/// Whether `calls` are the typed forms of the translatable intents among
/// `raws`, in order, each under the id `tool_` followed by its position in `raws`.
pub open spec fn typed(raws: Seq<RawToolCall>, calls: Seq<ToolCallWithId>) -> bool {
    &&& calls.len() == kept(raws).len()
    &&& forall|k: int|
        0 <= k < calls.len() ==> {
            let at = #[trigger] kept(raws)[k];
            &&& 0 <= at < raws.len()
            &&& calls[k].id@ == "tool_"@ + decimal(at)
            &&& raws[at].translates(calls[k].call)
        }
}

/// Translates the intents of a result frame. Intents that name an unknown
/// tool or lack a required field are dropped.
pub fn tool_calls_of(raws: &Vec<RawToolCall>) -> (calls: Vec<ToolCallWithId>)
    ensures
        typed(raws@, calls@),
{
    let mut calls: Vec<ToolCallWithId> = Vec::new();
    let mut i: usize = 0;
    while i < raws.len()
        invariant
            i <= raws@.len(),
            typed(raws@.take(i as int), calls@),
        decreases raws@.len() - i,
    {
        let ghost seen = raws@.take(i as int);
        let ghost now = raws@.take(i + 1);
        let ghost before = calls@;
        proof {
            assert(now.drop_last() =~= seen);
            assert(now.last() == raws@[i as int]);
        }
        match raws[i].to_tool_call() {
            Some(call) => {
                let mut id: Vec<char> = Vec::new();
                push_str(&mut id, "tool_");
                push_unsigned(&mut id, i as u128);
                calls.push(ToolCallWithId { id: string_of(&id), call });
                proof {
                    assert(kept(now) == kept(seen).push(i as int));
                    assert forall|k: int| 0 <= k < calls@.len() implies {
                        let at = #[trigger] kept(now)[k];
                        &&& 0 <= at < now.len()
                        &&& calls@[k].id@ == "tool_"@ + decimal(at)
                        &&& now[at].translates(calls@[k].call)
                    } by {
                        if k < before.len() {
                            assert(kept(seen)[k] == kept(now)[k]);
                            assert(calls@[k] == before[k]);
                        }
                    }
                }
            },
            None => {
                proof {
                    assert(kept(now) == kept(seen));
                    assert forall|k: int| 0 <= k < calls@.len() implies {
                        let at = #[trigger] kept(now)[k];
                        &&& 0 <= at < now.len()
                        &&& calls@[k].id@ == "tool_"@ + decimal(at)
                        &&& now[at].translates(calls@[k].call)
                    } by {
                        assert(kept(seen)[k] == kept(now)[k]);
                    }
                }
            },
        }
        i += 1;
    }
    proof {
        assert(raws@.take(raws@.len() as int) =~= raws@);
    }
    calls
}

/// A frame written by the reasoner.
#[derive(Clone, Debug)]
pub enum OutputFrame {
    /// Opens the session: the tools that the child offers and its session id.
    System { tools: Vec<String>, session_id: Option<String> },
    /// An intermediate frame. `truncated_content_length` is present when the
    /// reasoner truncated its context.
    Assistant { truncated_content_length: Option<u64> },
    /// Ends a turn: the intents, when the structured output is present.
    Result { tool_calls: Option<Vec<RawToolCall>>, session_id: Option<String> },
    /// Any other frame.
    Other,
}

/// Whether the child offers nothing but the structured-output sentinel.
pub open spec fn only_sentinel(tools: Seq<String>) -> bool {
    forall|i: int| 0 <= i < tools.len() ==> (#[trigger] tools[i])@ == "StructuredOutput"@
}

/// Checks the tools that the child announces at startup. Any tool besides
/// the structured-output sentinel is a security violation.
pub fn check_tools(tools: &Vec<String>) -> (r: Result<(), String>)
    ensures
        r is Ok <==> only_sentinel(tools@),
        r matches Err(e) ==> e@ == "Security violation"@,
{
    let mut i: usize = 0;
    while i < tools.len()
        invariant
            i <= tools@.len(),
            only_sentinel(tools@.take(i as int)),
        decreases tools@.len() - i,
    {
        if !str_eq(tools[i].as_str(), "StructuredOutput") {
            return Err("Security violation".to_owned());
        }
        proof {
            let now = tools@.take(i + 1);
            assert forall|k: int| 0 <= k < now.len() implies (#[trigger] now[k])@
                == "StructuredOutput"@ by {
                if k < i {
                    assert(tools@.take(i as int)[k] == now[k]);
                }
            }
        }
        i += 1;
    }
    proof {
        assert(tools@.take(tools@.len() as int) =~= tools@);
    }
    Ok(())
}

/// The first frame that is written to the child: the system prompt on a
/// fresh start, a short notice when a session is resumed.
pub fn seed_message(system_prompt: &str, resumed: bool) -> (out: String)
    ensures
        out@ == if resumed {
            "Session resumed. Ready for new messages."@
        } else {
            system_prompt@
        },
{
    if resumed {
        "Session resumed. Ready for new messages.".to_owned()
    } else {
        system_prompt.to_owned()
    }
}

/// What a frame means while the bridge waits for the session to open.
#[derive(Debug)]
pub enum Handshake {
    /// The frame is none of the session's opening; keep waiting.
    Waiting,
    /// The session is open, with the session id if the frame carried one.
    Opened { session_id: Option<String> },
    /// The child offers tools of its own; startup is aborted.
    Refused(String),
}

/// Reads one frame while waiting for the session to open.
pub fn on_startup_frame(frame: OutputFrame) -> (r: Handshake)
    ensures
        match frame {
            OutputFrame::System { tools, session_id } => if only_sentinel(tools@) {
                r == (Handshake::Opened { session_id })
            } else {
                r matches Handshake::Refused(e) && e@ == "Security violation"@
            },
            _ => r is Waiting,
        },
{
    match frame {
        OutputFrame::System { tools, session_id } => match check_tools(&tools) {
            Ok(()) => Handshake::Opened { session_id },
            Err(e) => Handshake::Refused(e),
        },
        _ => Handshake::Waiting,
    }
}

/// Whether a session id reported by the child replaces the one on record.
pub open spec fn replaces(current: Option<String>, reported: Option<String>) -> bool {
    match reported {
        Some(sid) => match current {
            Some(cur) => cur@ != sid@,
            None => true,
        },
        None => false,
    }
}

/// Whether the session id that a result frame reported differs from the
/// one on record, so that it must be recorded and written to disk.
pub fn session_changed(current: &Option<String>, reported: &Option<String>) -> (r: bool)
    ensures
        r == replaces(*current, *reported),
{
    match reported {
        Some(sid) => match current {
            Some(cur) => !str_eq(cur.as_str(), sid.as_str()),
            None => true,
        },
        None => false,
    }
}

/// Reads the frames of one turn up to the result frame.
pub struct TurnReader {
    compacted: bool,
}

/// What a frame means within a turn.
#[derive(Debug)]
pub enum TurnStep {
    /// The turn goes on.
    Pending,
    /// The turn is complete.
    Complete { response: Response, session_id: Option<String> },
}

/// Whether the frame tells that the reasoner truncated its context.
pub open spec fn signals_compaction(frame: OutputFrame) -> bool {
    frame matches OutputFrame::Assistant { truncated_content_length: Some(_) }
}

/// Whether one of `frames` tells that the reasoner truncated its context.
pub open spec fn any_compaction(frames: Seq<OutputFrame>) -> bool {
    exists|i: int| 0 <= i < frames.len() && signals_compaction(#[trigger] frames[i])
}

impl TurnReader {
    /// Whether a frame read so far told of a compaction.
    pub closed spec fn compacted(&self) -> bool {
        self.compacted
    }

    /// A reader at the start of a turn.
    pub fn new() -> (reader: Self)
        ensures
            !reader.compacted(),
    {
        Self { compacted: false }
    }

    /// Reads one frame. An assistant frame that carries a truncated length
    /// marks the turn as compacted; a result frame completes the turn with
    /// the typed intents; every other frame is skipped.
    pub fn on_frame(&mut self, frame: OutputFrame) -> (step: TurnStep)
        ensures
            final(self).compacted() == (old(self).compacted() || signals_compaction(frame)),
            match frame {
                OutputFrame::Result { tool_calls, session_id } => {
                    &&& step matches TurnStep::Complete { response, session_id: sid }
                    &&& sid == session_id
                    &&& response.compacted == old(self).compacted()
                    &&& match tool_calls {
                        Some(raws) => typed(raws@, response.tool_calls@),
                        None => response.tool_calls@.len() == 0,
                    }
                },
                _ => step is Pending,
            },
    {
        match frame {
            OutputFrame::Assistant { truncated_content_length } => {
                if truncated_content_length.is_some() {
                    self.compacted = true;
                }
                TurnStep::Pending
            },
            OutputFrame::Result { tool_calls, session_id } => {
                let calls = match tool_calls {
                    Some(raws) => tool_calls_of(&raws),
                    None => Vec::new(),
                };
                TurnStep::Complete {
                    response: Response { tool_calls: calls, compacted: self.compacted },
                    session_id,
                }
            },
            _ => TurnStep::Pending,
        }
    }
}

/// The state of a reader after the frames `frames`, none of which ends the turn.
pub open spec fn compacted_after(frames: Seq<OutputFrame>) -> bool
    decreases frames.len(),
{
    if frames.len() == 0 {
        false
    } else {
        compacted_after(frames.drop_last()) || signals_compaction(frames.last())
    }
}

/// A turn is marked as compacted exactly when one of its frames told of a
/// compaction, wherever in the turn it stood.
pub proof fn lemma_compaction_detected(frames: Seq<OutputFrame>)
    ensures
        compacted_after(frames) == any_compaction(frames),
    decreases frames.len(),
{
    if frames.len() > 0 {
        let front = frames.drop_last();
        lemma_compaction_detected(front);
        if any_compaction(front) {
            let i = choose|i: int| 0 <= i < front.len() && signals_compaction(#[trigger] front[i]);
            assert(signals_compaction(frames[i]));
        }
        if any_compaction(frames) {
            let i = choose|i: int| 0 <= i < frames.len() && signals_compaction(#[trigger] frames[i]);
            if i < front.len() {
                assert(signals_compaction(front[i]));
            }
        }
    }
}

/// The text of one tool result in the frame that reports the results.
pub open spec fn result_line(result: ToolResult) -> Seq<char> {
    "- "@ + result.tool_use_id@ + ": "@ + match result.content {
        Some(text) => text@,
        None => Seq::empty(),
    } + if result.is_error {
        " (ERROR)"@
    } else {
        Seq::empty()
    } + "\n"@
}

/// The lines of the results `results`, in order.
pub open spec fn result_lines(results: Seq<ToolResult>) -> Seq<char>
    decreases results.len(),
{
    if results.len() == 0 {
        Seq::empty()
    } else {
        result_lines(results.drop_last()) + result_line(results.last())
    }
}

/// Formats tool results as the text of one turn: a heading and one line
/// per result with its id, its content and a mark on failure.
pub fn format_tool_results(results: &Vec<ToolResult>) -> (out: String)
    ensures
        out@ == "Tool results:\n"@ + result_lines(results@),
{
    let mut buf: Vec<char> = Vec::new();
    push_str(&mut buf, "Tool results:\n");
    let mut i: usize = 0;
    while i < results.len()
        invariant
            i <= results@.len(),
            buf@ == "Tool results:\n"@ + result_lines(results@.take(i as int)),
        decreases results@.len() - i,
    {
        let ghost before = buf@;
        let result = &results[i];
        push_str(&mut buf, "- ");
        push_str(&mut buf, result.tool_use_id.as_str());
        push_str(&mut buf, ": ");
        match &result.content {
            Some(text) => push_str(&mut buf, text.as_str()),
            None => {},
        }
        if result.is_error {
            push_str(&mut buf, " (ERROR)");
        }
        push_str(&mut buf, "\n");
        proof {
            assert(results@.take(i + 1).drop_last() =~= results@.take(i as int));
            assert(results@.take(i + 1).last() == results@[i as int]);
            assert(buf@ =~= before + result_line(*result));
        }
        i += 1;
    }
    proof {
        assert(results@.take(results@.len() as int) =~= results@);
    }
    string_of(&buf)
}

/// The JSON schema of the structured output that the child is held to:
/// an array of tool calls, each with the tool's name and optional fields.
pub const OUTPUT_SCHEMA: &'static str =
    "{\n  \"type\": \"object\",\n  \"properties\": {\n    \"tool_calls\": {\n      \"type\": \"array\",\n      \"items\": {\n        \"type\": \"object\",\n        \"properties\": {\n          \"tool\": { \"type\": \"string\" },\n          \"chat_id\": { \"type\": \"integer\" },\n          \"text\": { \"type\": \"string\" },\n          \"reply_to_message_id\": { \"type\": \"integer\" },\n          \"user_id\": { \"type\": \"integer\" },\n          \"message_id\": { \"type\": \"integer\" },\n          \"emoji\": { \"type\": \"string\" },\n          \"last_n\": { \"type\": \"integer\" },\n          \"from_date\": { \"type\": \"string\" },\n          \"to_date\": { \"type\": \"string\" },\n          \"username\": { \"type\": \"string\" },\n          \"limit\": { \"type\": \"integer\" },\n          \"query\": { \"type\": \"string\" },\n          \"duration_minutes\": { \"type\": \"integer\" },\n          \"days_inactive\": { \"type\": \"integer\" },\n          \"filter\": { \"type\": \"string\" },\n          \"file_path\": { \"type\": \"string\" },\n          \"caption\": { \"type\": \"string\" },\n          \"voice\": { \"type\": \"string\" },\n          \"path\": { \"type\": \"string\" },\n          \"content\": { \"type\": \"string\" },\n          \"old_string\": { \"type\": \"string\" },\n          \"new_string\": { \"type\": \"string\" },\n          \"pattern\": { \"type\": \"string\" },\n          \"description\": { \"type\": \"string\" },\n          \"severity\": { \"type\": \"string\" },\n          \"url\": { \"type\": \"string\" },\n          \"sql\": { \"type\": \"string\" },\n          \"message\": { \"type\": \"string\" },\n          \"trigger_at\": { \"type\": \"string\" },\n          \"repeat_cron\": { \"type\": \"string\" },\n          \"reminder_id\": { \"type\": \"integer\" },\n          \"prompt\": { \"type\": \"string\" }\n        },\n        \"required\": [\"tool\"]\n      }\n    }\n  },\n  \"required\": [\"tool_calls\"]\n}";

/// The arguments with which the child is launched.
pub open spec fn launch_args(schema: Seq<char>, resume: Option<Seq<char>>) -> Seq<Seq<char>> {
    let fixed = seq![
        "--print"@,
        "--input-format"@,
        "stream-json"@,
        "--output-format"@,
        "stream-json"@,
        "--verbose"@,
        "--model"@,
        "opus"@,
        "--tools"@,
        ""@,
        "--json-schema"@,
        schema,
    ];
    match resume {
        Some(session_id) => fixed + seq!["--resume"@, session_id],
        None => fixed,
    }
}

/// Builds the arguments with which the child is launched: streaming JSON
/// in both directions, a pinned model, no tools of its own, the output
/// schema, and the session to resume if there is one.
pub fn launch_arguments(schema: &str, resume: Option<&str>) -> (args: Vec<String>)
    ensures
        crate::text::texts(args@) == launch_args(
            schema@,
            match resume {
                Some(session_id) => Some(session_id@),
                None => None,
            },
        ),
{
    let mut args: Vec<String> = Vec::new();
    args.push("--print".to_owned());
    args.push("--input-format".to_owned());
    args.push("stream-json".to_owned());
    args.push("--output-format".to_owned());
    args.push("stream-json".to_owned());
    args.push("--verbose".to_owned());
    args.push("--model".to_owned());
    args.push("opus".to_owned());
    args.push("--tools".to_owned());
    args.push("".to_owned());
    args.push("--json-schema".to_owned());
    args.push(schema.to_owned());
    match resume {
        Some(session_id) => {
            args.push("--resume".to_owned());
            args.push(session_id.to_owned());
        },
        None => {},
    }
    assert(crate::text::texts(args@) =~= launch_args(
        schema@,
        match resume {
            Some(session_id) => Some(session_id@),
            None => None,
        },
    ));
    args
}

/// The session id as it is read from its file: the content without
/// surrounding white space, if anything is left.
pub fn read_session_id(content: &str) -> (r: Option<String>)
    ensures
        match r {
            Some(id) => id@ == crate::text::trimmed(content@) && id@.len() > 0,
            None => crate::text::trimmed(content@).len() == 0,
        },
{
    let id = crate::text::trim(&crate::text::chars_of(content));
    if id.len() == 0 {
        None
    } else {
        Some(string_of(&id))
    }
}

} // verus!
