//! The fixed vocabulary of tools that the reasoner may call.

use crate::wording::{self, descriptions, ToolWording};
use vstd::prelude::*;

verus! {

/// The JSON type of a tool parameter.
#[derive(Clone, Copy, Debug, PartialEq, Eq, Structural)]
pub enum ParamKind {
    Integer,
    Text,
}

/// A parameter that tools take.
#[derive(Clone, Copy, Debug, PartialEq, Eq, Structural)]
pub enum Field {
    ChatId,
    Text,
    ReplyToMessageId,
    UserId,
    Username,
    Sql,
    MessageId,
    Emoji,
    DurationMinutes,
    Filter,
    DaysInactive,
    Limit,
    FilePath,
    Prompt,
    Caption,
    Voice,
    Path,
    Content,
    OldString,
    NewString,
    Pattern,
    Description,
    Severity,
    Url,
    Message,
    TriggerAt,
    RepeatCron,
    ReminderId,
}

impl Field {
    /// The name of the parameter.
    pub open spec fn name_text(self) -> Seq<char> {
        match self {
            Field::ChatId => "chat_id"@,
            Field::Text => "text"@,
            Field::ReplyToMessageId => "reply_to_message_id"@,
            Field::UserId => "user_id"@,
            Field::Username => "username"@,
            Field::Sql => "sql"@,
            Field::MessageId => "message_id"@,
            Field::Emoji => "emoji"@,
            Field::DurationMinutes => "duration_minutes"@,
            Field::Filter => "filter"@,
            Field::DaysInactive => "days_inactive"@,
            Field::Limit => "limit"@,
            Field::FilePath => "file_path"@,
            Field::Prompt => "prompt"@,
            Field::Caption => "caption"@,
            Field::Voice => "voice"@,
            Field::Path => "path"@,
            Field::Content => "content"@,
            Field::OldString => "old_string"@,
            Field::NewString => "new_string"@,
            Field::Pattern => "pattern"@,
            Field::Description => "description"@,
            Field::Severity => "severity"@,
            Field::Url => "url"@,
            Field::Message => "message"@,
            Field::TriggerAt => "trigger_at"@,
            Field::RepeatCron => "repeat_cron"@,
            Field::ReminderId => "reminder_id"@,
        }
    }

    /// The name of the parameter, as the reasoner writes it.
    pub fn name(self) -> (out: &'static str)
        ensures
            out@ == self.name_text(),
    {
        match self {
            Field::ChatId => "chat_id",
            Field::Text => "text",
            Field::ReplyToMessageId => "reply_to_message_id",
            Field::UserId => "user_id",
            Field::Username => "username",
            Field::Sql => "sql",
            Field::MessageId => "message_id",
            Field::Emoji => "emoji",
            Field::DurationMinutes => "duration_minutes",
            Field::Filter => "filter",
            Field::DaysInactive => "days_inactive",
            Field::Limit => "limit",
            Field::FilePath => "file_path",
            Field::Prompt => "prompt",
            Field::Caption => "caption",
            Field::Voice => "voice",
            Field::Path => "path",
            Field::Content => "content",
            Field::OldString => "old_string",
            Field::NewString => "new_string",
            Field::Pattern => "pattern",
            Field::Description => "description",
            Field::Severity => "severity",
            Field::Url => "url",
            Field::Message => "message",
            Field::TriggerAt => "trigger_at",
            Field::RepeatCron => "repeat_cron",
            Field::ReminderId => "reminder_id",
        }
    }

    /// The JSON type of the parameter.
    pub open spec fn kind_of(self) -> ParamKind {
        match self {
            Field::ChatId | Field::ReplyToMessageId | Field::UserId | Field::MessageId | Field::DurationMinutes | Field::DaysInactive | Field::Limit | Field::ReminderId => ParamKind::Integer,
            _ => ParamKind::Text,
        }
    }

    /// The JSON type of the parameter.
    pub fn kind(self) -> (out: ParamKind)
        ensures
            out == self.kind_of(),
    {
        match self {
            Field::ChatId | Field::ReplyToMessageId | Field::UserId | Field::MessageId | Field::DurationMinutes | Field::DaysInactive | Field::Limit | Field::ReminderId => ParamKind::Integer,
            _ => ParamKind::Text,
        }
    }
}

/// One parameter of a tool, as surfaced to the reasoner.
#[derive(Clone, Debug)]
pub struct ToolParam {
    pub name: String,
    pub kind: ParamKind,
    pub description: String,
    pub required: bool,
}

/// A tool definition: its name, what it does, and its parameters.
#[derive(Clone, Debug)]
pub struct Tool {
    pub name: String,
    pub description: String,
    pub parameters: Vec<ToolParam>,
}

/// A typed tool intent.
#[derive(Clone, Debug)]
pub enum ToolCall {
    /// Send a message to a chat.
    SendMessage { chat_id: i64, text: String, reply_to_message_id: Option<i64> },
    /// Get info about a user by id or username.
    GetUserInfo { user_id: Option<i64>, username: Option<String> },
    /// Run a read-only SQL query on the archive.
    Query { sql: String },
    /// Add a reaction emoji to a message.
    AddReaction { chat_id: i64, message_id: i64, emoji: String },
    /// Delete a message (admin action).
    DeleteMessage { chat_id: i64, message_id: i64 },
    /// Mute a user for a number of minutes (admin action).
    MuteUser { chat_id: i64, user_id: i64, duration_minutes: i64 },
    /// Ban a user (admin action).
    BanUser { chat_id: i64, user_id: i64 },
    /// Remove a user who may rejoin later (admin action).
    KickUser { chat_id: i64, user_id: i64 },
    /// List the administrators of a chat.
    GetChatAdmins { chat_id: i64 },
    /// List known members, optionally filtered.
    GetMembers { filter: Option<String>, days_inactive: Option<i64>, limit: Option<i64> },
    /// Import members from a JSON file.
    ImportMembers { file_path: String },
    /// Generate an image from a prompt and send it.
    SendPhoto {
        chat_id: i64,
        prompt: String,
        caption: Option<String>,
        reply_to_message_id: Option<i64>,
    },
    /// Synthesize speech and send it as a voice message.
    SendVoice {
        chat_id: i64,
        text: String,
        voice: Option<String>,
        reply_to_message_id: Option<i64>,
    },
    /// Create a new memory file; fails if it exists.
    CreateMemory { path: String, content: String },
    /// Read a memory file with line numbers.
    ReadMemory { path: String },
    /// Replace one occurrence of a string in a memory file that was read before.
    EditMemory { path: String, old_string: String, new_string: String },
    /// List the entries of the memory directory or of a subdirectory.
    ListMemories { path: Option<String> },
    /// Search the memory files for a substring.
    SearchMemories { pattern: String, path: Option<String> },
    /// Delete a memory file.
    DeleteMemory { path: String },
    /// Append a record to the feedback log.
    ReportBug { description: String, severity: Option<String> },
    /// Look up the metadata of a video.
    YoutubeInfo { url: String },
    /// Schedule a message.
    SetReminder { chat_id: i64, message: String, trigger_at: String, repeat_cron: Option<String> },
    /// List the active reminders, optionally of one chat.
    ListReminders { chat_id: Option<i64> },
    /// Cancel a reminder.
    CancelReminder { reminder_id: i64 },
    /// Let a user write to the bot in private (owner only).
    AddTrustedUser { user_id: i64 },
    /// Withdraw that permission (owner only).
    RemoveTrustedUser { user_id: i64 },
    /// Acknowledge without acting.
    Noop,
    /// The turn is complete.
    Done,
    /// An intent that could not be parsed; the message goes back to the reasoner.
    ParseError { message: String },
}

impl ToolCall {
    /// Whether this intent is the terminal sentinel.
    pub open spec fn is_done(self) -> bool {
        self is Done
    }

    /// Tests whether this intent is the terminal sentinel.
    pub fn done(&self) -> (r: bool)
        ensures
            r == self.is_done(),
    {
        match self {
            ToolCall::Done => true,
            _ => false,
        }
    }
}


/// A parameter of a tool and whether the tool requires it.
pub struct ParamSig {
    pub field: Field,
    pub required: bool,
}

/// A tool's name and the parameters it takes, in order.
pub struct ToolSig {
    pub name: Seq<char>,
    pub params: Seq<ParamSig>,
}

/// What the reasoner reads of a parameter: name, type, description and
/// whether it is required.
pub struct ParamView {
    pub name: Seq<char>,
    pub kind: ParamKind,
    pub description: Seq<char>,
    pub required: bool,
}

impl View for ToolParam {
    type V = ParamView;

    open spec fn view(&self) -> ParamView {
        ParamView {
            name: self.name@,
            kind: self.kind,
            description: self.description@,
            required: self.required,
        }
    }
}

/// What the reasoner reads of the parameter `p`, described as `description`.
pub open spec fn shown(p: ParamSig, description: Seq<char>) -> ParamView {
    ParamView {
        name: p.field.name_text(),
        kind: p.field.kind_of(),
        description,
        required: p.required,
    }
}

/// What the reasoner reads of the parameters `params`, each described by
/// the text at its position in `descriptions`.
pub open spec fn described(params: Seq<ParamSig>, descriptions: Seq<Seq<char>>) -> Seq<ParamView> {
    Seq::new(params.len(), |j: int| shown(params[j], descriptions[j]))
}

impl Tool {
    /// Whether the definition is that of `sig` in the words of `text`: the
    /// same name, the same description and, in the same order, the same
    /// parameters with their descriptions.
    pub open spec fn defines(self, sig: ToolSig, text: ToolWording) -> bool {
        &&& self.name@ == sig.name
        &&& self.description@ == text.about
        &&& sig.params.len() == text.params.len()
        &&& self.parameters@.map_values(|p: ToolParam| p@) == described(sig.params, text.params)
    }
}

/// A required parameter.
pub open spec fn req(field: Field) -> ParamSig {
    ParamSig { field, required: true }
}

/// An optional parameter.
pub open spec fn opt(field: Field) -> ParamSig {
    ParamSig { field, required: false }
}

/// The signature of a tool.
pub open spec fn sig(name: Seq<char>, params: Seq<ParamSig>) -> ToolSig {
    ToolSig { name, params }
}

/// The tools, in the order in which they are presented to the reasoner.
pub open spec fn vocabulary() -> Seq<ToolSig> {
    seq![
        sig(
            "send_message"@,
            seq![
                req(Field::ChatId),
                req(Field::Text),
                opt(Field::ReplyToMessageId),
            ],
        ),
        sig("get_user_info"@, seq![opt(Field::UserId), opt(Field::Username)]),
        sig("query"@, seq![req(Field::Sql)]),
        sig("add_reaction"@, seq![req(Field::ChatId), req(Field::MessageId), req(Field::Emoji)]),
        sig("delete_message"@, seq![req(Field::ChatId), req(Field::MessageId)]),
        sig(
            "mute_user"@,
            seq![
                req(Field::ChatId),
                req(Field::UserId),
                req(Field::DurationMinutes),
            ],
        ),
        sig("ban_user"@, seq![req(Field::ChatId), req(Field::UserId)]),
        sig("kick_user"@, seq![req(Field::ChatId), req(Field::UserId)]),
        sig("get_chat_admins"@, seq![req(Field::ChatId)]),
        sig("get_members"@, seq![opt(Field::Filter), opt(Field::DaysInactive), opt(Field::Limit)]),
        sig("import_members"@, seq![req(Field::FilePath)]),
        sig(
            "send_photo"@,
            seq![
                req(Field::ChatId),
                req(Field::Prompt),
                opt(Field::Caption),
                opt(Field::ReplyToMessageId),
            ],
        ),
        sig(
            "send_voice"@,
            seq![
                req(Field::ChatId),
                req(Field::Text),
                opt(Field::Voice),
                opt(Field::ReplyToMessageId),
            ],
        ),
        sig("create_memory"@, seq![req(Field::Path), req(Field::Content)]),
        sig("read_memory"@, seq![req(Field::Path)]),
        sig("edit_memory"@, seq![req(Field::Path), req(Field::OldString), req(Field::NewString)]),
        sig("list_memories"@, seq![opt(Field::Path)]),
        sig("search_memories"@, seq![req(Field::Pattern), opt(Field::Path)]),
        sig("delete_memory"@, seq![req(Field::Path)]),
        sig("report_bug"@, seq![req(Field::Description), opt(Field::Severity)]),
        sig("youtube_info"@, seq![req(Field::Url)]),
        sig("noop"@, Seq::empty()),
        sig(
            "set_reminder"@,
            seq![
                req(Field::ChatId),
                req(Field::Message),
                req(Field::TriggerAt),
                opt(Field::RepeatCron),
            ],
        ),
        sig("list_reminders"@, seq![opt(Field::ChatId)]),
        sig("cancel_reminder"@, seq![req(Field::ReminderId)]),
        sig("add_trusted_user"@, seq![req(Field::UserId)]),
        sig("remove_trusted_user"@, seq![req(Field::UserId)]),
        sig("done"@, Seq::empty()),
    ]
}

fn param(field: Field, description: &str, required: bool) -> (p: ToolParam)
    ensures
        p@ == shown(ParamSig { field, required }, description@),
{
    ToolParam {
        name: field.name().to_owned(),
        kind: field.kind(),
        description: description.to_owned(),
        required,
    }
}

fn tool(name: &str, description: &str, parameters: Vec<ToolParam>) -> (t: Tool)
    ensures
        t.name@ == name@,
        t.description@ == description@,
        t.parameters == parameters,
{
    Tool { name: name.to_owned(), description: description.to_owned(), parameters }
}

fn send_message_tool() -> (t: Tool)
    ensures
        t.defines(vocabulary()[0], descriptions()[0]),
{
    let mut parameters: Vec<ToolParam> = Vec::new();
    parameters.push(param(Field::ChatId, wording::SEND_MESSAGE_CHAT_ID, true));
    parameters.push(param(Field::Text, wording::SEND_MESSAGE_TEXT, true));
    parameters.push(param(Field::ReplyToMessageId, wording::SEND_MESSAGE_REPLY_TO_MESSAGE_ID, false));
    let t = tool("send_message", wording::SEND_MESSAGE, parameters);
    assert(t.parameters@.map_values(|p: ToolParam| p@) =~= described(
        vocabulary()[0].params,
        descriptions()[0].params,
    ));
    t
}

fn get_user_info_tool() -> (t: Tool)
    ensures
        t.defines(vocabulary()[1], descriptions()[1]),
{
    let mut parameters: Vec<ToolParam> = Vec::new();
    parameters.push(param(Field::UserId, wording::GET_USER_INFO_USER_ID, false));
    parameters.push(param(Field::Username, wording::GET_USER_INFO_USERNAME, false));
    let t = tool("get_user_info", wording::GET_USER_INFO, parameters);
    assert(t.parameters@.map_values(|p: ToolParam| p@) =~= described(
        vocabulary()[1].params,
        descriptions()[1].params,
    ));
    t
}

fn query_tool() -> (t: Tool)
    ensures
        t.defines(vocabulary()[2], descriptions()[2]),
{
    let mut parameters: Vec<ToolParam> = Vec::new();
    parameters.push(param(Field::Sql, wording::QUERY_SQL, true));
    let t = tool("query", wording::QUERY, parameters);
    assert(t.parameters@.map_values(|p: ToolParam| p@) =~= described(
        vocabulary()[2].params,
        descriptions()[2].params,
    ));
    t
}

fn add_reaction_tool() -> (t: Tool)
    ensures
        t.defines(vocabulary()[3], descriptions()[3]),
{
    let mut parameters: Vec<ToolParam> = Vec::new();
    parameters.push(param(Field::ChatId, wording::ADD_REACTION_CHAT_ID, true));
    parameters.push(param(Field::MessageId, wording::ADD_REACTION_MESSAGE_ID, true));
    parameters.push(param(Field::Emoji, wording::ADD_REACTION_EMOJI, true));
    let t = tool("add_reaction", wording::ADD_REACTION, parameters);
    assert(t.parameters@.map_values(|p: ToolParam| p@) =~= described(
        vocabulary()[3].params,
        descriptions()[3].params,
    ));
    t
}

fn delete_message_tool() -> (t: Tool)
    ensures
        t.defines(vocabulary()[4], descriptions()[4]),
{
    let mut parameters: Vec<ToolParam> = Vec::new();
    parameters.push(param(Field::ChatId, wording::DELETE_MESSAGE_CHAT_ID, true));
    parameters.push(param(Field::MessageId, wording::DELETE_MESSAGE_MESSAGE_ID, true));
    let t = tool("delete_message", wording::DELETE_MESSAGE, parameters);
    assert(t.parameters@.map_values(|p: ToolParam| p@) =~= described(
        vocabulary()[4].params,
        descriptions()[4].params,
    ));
    t
}

fn mute_user_tool() -> (t: Tool)
    ensures
        t.defines(vocabulary()[5], descriptions()[5]),
{
    let mut parameters: Vec<ToolParam> = Vec::new();
    parameters.push(param(Field::ChatId, wording::MUTE_USER_CHAT_ID, true));
    parameters.push(param(Field::UserId, wording::MUTE_USER_USER_ID, true));
    parameters.push(param(Field::DurationMinutes, wording::MUTE_USER_DURATION_MINUTES, true));
    let t = tool("mute_user", wording::MUTE_USER, parameters);
    assert(t.parameters@.map_values(|p: ToolParam| p@) =~= described(
        vocabulary()[5].params,
        descriptions()[5].params,
    ));
    t
}

fn ban_user_tool() -> (t: Tool)
    ensures
        t.defines(vocabulary()[6], descriptions()[6]),
{
    let mut parameters: Vec<ToolParam> = Vec::new();
    parameters.push(param(Field::ChatId, wording::BAN_USER_CHAT_ID, true));
    parameters.push(param(Field::UserId, wording::BAN_USER_USER_ID, true));
    let t = tool("ban_user", wording::BAN_USER, parameters);
    assert(t.parameters@.map_values(|p: ToolParam| p@) =~= described(
        vocabulary()[6].params,
        descriptions()[6].params,
    ));
    t
}

fn kick_user_tool() -> (t: Tool)
    ensures
        t.defines(vocabulary()[7], descriptions()[7]),
{
    let mut parameters: Vec<ToolParam> = Vec::new();
    parameters.push(param(Field::ChatId, wording::KICK_USER_CHAT_ID, true));
    parameters.push(param(Field::UserId, wording::KICK_USER_USER_ID, true));
    let t = tool("kick_user", wording::KICK_USER, parameters);
    assert(t.parameters@.map_values(|p: ToolParam| p@) =~= described(
        vocabulary()[7].params,
        descriptions()[7].params,
    ));
    t
}

fn get_chat_admins_tool() -> (t: Tool)
    ensures
        t.defines(vocabulary()[8], descriptions()[8]),
{
    let mut parameters: Vec<ToolParam> = Vec::new();
    parameters.push(param(Field::ChatId, wording::GET_CHAT_ADMINS_CHAT_ID, true));
    let t = tool("get_chat_admins", wording::GET_CHAT_ADMINS, parameters);
    assert(t.parameters@.map_values(|p: ToolParam| p@) =~= described(
        vocabulary()[8].params,
        descriptions()[8].params,
    ));
    t
}

fn get_members_tool() -> (t: Tool)
    ensures
        t.defines(vocabulary()[9], descriptions()[9]),
{
    let mut parameters: Vec<ToolParam> = Vec::new();
    parameters.push(param(Field::Filter, wording::GET_MEMBERS_FILTER, false));
    parameters.push(param(Field::DaysInactive, wording::GET_MEMBERS_DAYS_INACTIVE, false));
    parameters.push(param(Field::Limit, wording::GET_MEMBERS_LIMIT, false));
    let t = tool("get_members", wording::GET_MEMBERS, parameters);
    assert(t.parameters@.map_values(|p: ToolParam| p@) =~= described(
        vocabulary()[9].params,
        descriptions()[9].params,
    ));
    t
}

fn import_members_tool() -> (t: Tool)
    ensures
        t.defines(vocabulary()[10], descriptions()[10]),
{
    let mut parameters: Vec<ToolParam> = Vec::new();
    parameters.push(param(Field::FilePath, wording::IMPORT_MEMBERS_FILE_PATH, true));
    let t = tool("import_members", wording::IMPORT_MEMBERS, parameters);
    assert(t.parameters@.map_values(|p: ToolParam| p@) =~= described(
        vocabulary()[10].params,
        descriptions()[10].params,
    ));
    t
}

fn send_photo_tool() -> (t: Tool)
    ensures
        t.defines(vocabulary()[11], descriptions()[11]),
{
    let mut parameters: Vec<ToolParam> = Vec::new();
    parameters.push(param(Field::ChatId, wording::SEND_PHOTO_CHAT_ID, true));
    parameters.push(param(Field::Prompt, wording::SEND_PHOTO_PROMPT, true));
    parameters.push(param(Field::Caption, wording::SEND_PHOTO_CAPTION, false));
    parameters.push(param(Field::ReplyToMessageId, wording::SEND_PHOTO_REPLY_TO_MESSAGE_ID, false));
    let t = tool("send_photo", wording::SEND_PHOTO, parameters);
    assert(t.parameters@.map_values(|p: ToolParam| p@) =~= described(
        vocabulary()[11].params,
        descriptions()[11].params,
    ));
    t
}

fn send_voice_tool() -> (t: Tool)
    ensures
        t.defines(vocabulary()[12], descriptions()[12]),
{
    let mut parameters: Vec<ToolParam> = Vec::new();
    parameters.push(param(Field::ChatId, wording::SEND_VOICE_CHAT_ID, true));
    parameters.push(param(Field::Text, wording::SEND_VOICE_TEXT, true));
    parameters.push(param(Field::Voice, wording::SEND_VOICE_VOICE, false));
    parameters.push(param(Field::ReplyToMessageId, wording::SEND_VOICE_REPLY_TO_MESSAGE_ID, false));
    let t = tool("send_voice", wording::SEND_VOICE, parameters);
    assert(t.parameters@.map_values(|p: ToolParam| p@) =~= described(
        vocabulary()[12].params,
        descriptions()[12].params,
    ));
    t
}

fn create_memory_tool() -> (t: Tool)
    ensures
        t.defines(vocabulary()[13], descriptions()[13]),
{
    let mut parameters: Vec<ToolParam> = Vec::new();
    parameters.push(param(Field::Path, wording::CREATE_MEMORY_PATH, true));
    parameters.push(param(Field::Content, wording::CREATE_MEMORY_CONTENT, true));
    let t = tool("create_memory", wording::CREATE_MEMORY, parameters);
    assert(t.parameters@.map_values(|p: ToolParam| p@) =~= described(
        vocabulary()[13].params,
        descriptions()[13].params,
    ));
    t
}

fn read_memory_tool() -> (t: Tool)
    ensures
        t.defines(vocabulary()[14], descriptions()[14]),
{
    let mut parameters: Vec<ToolParam> = Vec::new();
    parameters.push(param(Field::Path, wording::READ_MEMORY_PATH, true));
    let t = tool("read_memory", wording::READ_MEMORY, parameters);
    assert(t.parameters@.map_values(|p: ToolParam| p@) =~= described(
        vocabulary()[14].params,
        descriptions()[14].params,
    ));
    t
}

fn edit_memory_tool() -> (t: Tool)
    ensures
        t.defines(vocabulary()[15], descriptions()[15]),
{
    let mut parameters: Vec<ToolParam> = Vec::new();
    parameters.push(param(Field::Path, wording::EDIT_MEMORY_PATH, true));
    parameters.push(param(Field::OldString, wording::EDIT_MEMORY_OLD_STRING, true));
    parameters.push(param(Field::NewString, wording::EDIT_MEMORY_NEW_STRING, true));
    let t = tool("edit_memory", wording::EDIT_MEMORY, parameters);
    assert(t.parameters@.map_values(|p: ToolParam| p@) =~= described(
        vocabulary()[15].params,
        descriptions()[15].params,
    ));
    t
}

fn list_memories_tool() -> (t: Tool)
    ensures
        t.defines(vocabulary()[16], descriptions()[16]),
{
    let mut parameters: Vec<ToolParam> = Vec::new();
    parameters.push(param(Field::Path, wording::LIST_MEMORIES_PATH, false));
    let t = tool("list_memories", wording::LIST_MEMORIES, parameters);
    assert(t.parameters@.map_values(|p: ToolParam| p@) =~= described(
        vocabulary()[16].params,
        descriptions()[16].params,
    ));
    t
}

fn search_memories_tool() -> (t: Tool)
    ensures
        t.defines(vocabulary()[17], descriptions()[17]),
{
    let mut parameters: Vec<ToolParam> = Vec::new();
    parameters.push(param(Field::Pattern, wording::SEARCH_MEMORIES_PATTERN, true));
    parameters.push(param(Field::Path, wording::SEARCH_MEMORIES_PATH, false));
    let t = tool("search_memories", wording::SEARCH_MEMORIES, parameters);
    assert(t.parameters@.map_values(|p: ToolParam| p@) =~= described(
        vocabulary()[17].params,
        descriptions()[17].params,
    ));
    t
}

fn delete_memory_tool() -> (t: Tool)
    ensures
        t.defines(vocabulary()[18], descriptions()[18]),
{
    let mut parameters: Vec<ToolParam> = Vec::new();
    parameters.push(param(Field::Path, wording::DELETE_MEMORY_PATH, true));
    let t = tool("delete_memory", wording::DELETE_MEMORY, parameters);
    assert(t.parameters@.map_values(|p: ToolParam| p@) =~= described(
        vocabulary()[18].params,
        descriptions()[18].params,
    ));
    t
}

fn report_bug_tool() -> (t: Tool)
    ensures
        t.defines(vocabulary()[19], descriptions()[19]),
{
    let mut parameters: Vec<ToolParam> = Vec::new();
    parameters.push(param(Field::Description, wording::REPORT_BUG_DESCRIPTION, true));
    parameters.push(param(Field::Severity, wording::REPORT_BUG_SEVERITY, false));
    let t = tool("report_bug", wording::REPORT_BUG, parameters);
    assert(t.parameters@.map_values(|p: ToolParam| p@) =~= described(
        vocabulary()[19].params,
        descriptions()[19].params,
    ));
    t
}

fn youtube_info_tool() -> (t: Tool)
    ensures
        t.defines(vocabulary()[20], descriptions()[20]),
{
    let mut parameters: Vec<ToolParam> = Vec::new();
    parameters.push(param(Field::Url, wording::YOUTUBE_INFO_URL, true));
    let t = tool("youtube_info", wording::YOUTUBE_INFO, parameters);
    assert(t.parameters@.map_values(|p: ToolParam| p@) =~= described(
        vocabulary()[20].params,
        descriptions()[20].params,
    ));
    t
}

fn noop_tool() -> (t: Tool)
    ensures
        t.defines(vocabulary()[21], descriptions()[21]),
{
    let parameters: Vec<ToolParam> = Vec::new();
    let t = tool("noop", wording::NOOP, parameters);
    assert(t.parameters@.map_values(|p: ToolParam| p@) =~= described(
        vocabulary()[21].params,
        descriptions()[21].params,
    ));
    t
}

fn set_reminder_tool() -> (t: Tool)
    ensures
        t.defines(vocabulary()[22], descriptions()[22]),
{
    let mut parameters: Vec<ToolParam> = Vec::new();
    parameters.push(param(Field::ChatId, wording::SET_REMINDER_CHAT_ID, true));
    parameters.push(param(Field::Message, wording::SET_REMINDER_MESSAGE, true));
    parameters.push(param(Field::TriggerAt, wording::SET_REMINDER_TRIGGER_AT, true));
    parameters.push(param(Field::RepeatCron, wording::SET_REMINDER_REPEAT_CRON, false));
    let t = tool("set_reminder", wording::SET_REMINDER, parameters);
    assert(t.parameters@.map_values(|p: ToolParam| p@) =~= described(
        vocabulary()[22].params,
        descriptions()[22].params,
    ));
    t
}

fn list_reminders_tool() -> (t: Tool)
    ensures
        t.defines(vocabulary()[23], descriptions()[23]),
{
    let mut parameters: Vec<ToolParam> = Vec::new();
    parameters.push(param(Field::ChatId, wording::LIST_REMINDERS_CHAT_ID, false));
    let t = tool("list_reminders", wording::LIST_REMINDERS, parameters);
    assert(t.parameters@.map_values(|p: ToolParam| p@) =~= described(
        vocabulary()[23].params,
        descriptions()[23].params,
    ));
    t
}

fn cancel_reminder_tool() -> (t: Tool)
    ensures
        t.defines(vocabulary()[24], descriptions()[24]),
{
    let mut parameters: Vec<ToolParam> = Vec::new();
    parameters.push(param(Field::ReminderId, wording::CANCEL_REMINDER_REMINDER_ID, true));
    let t = tool("cancel_reminder", wording::CANCEL_REMINDER, parameters);
    assert(t.parameters@.map_values(|p: ToolParam| p@) =~= described(
        vocabulary()[24].params,
        descriptions()[24].params,
    ));
    t
}

fn add_trusted_user_tool() -> (t: Tool)
    ensures
        t.defines(vocabulary()[25], descriptions()[25]),
{
    let mut parameters: Vec<ToolParam> = Vec::new();
    parameters.push(param(Field::UserId, wording::ADD_TRUSTED_USER_USER_ID, true));
    let t = tool("add_trusted_user", wording::ADD_TRUSTED_USER, parameters);
    assert(t.parameters@.map_values(|p: ToolParam| p@) =~= described(
        vocabulary()[25].params,
        descriptions()[25].params,
    ));
    t
}

fn remove_trusted_user_tool() -> (t: Tool)
    ensures
        t.defines(vocabulary()[26], descriptions()[26]),
{
    let mut parameters: Vec<ToolParam> = Vec::new();
    parameters.push(param(Field::UserId, wording::REMOVE_TRUSTED_USER_USER_ID, true));
    let t = tool("remove_trusted_user", wording::REMOVE_TRUSTED_USER, parameters);
    assert(t.parameters@.map_values(|p: ToolParam| p@) =~= described(
        vocabulary()[26].params,
        descriptions()[26].params,
    ));
    t
}

fn done_tool() -> (t: Tool)
    ensures
        t.defines(vocabulary()[27], descriptions()[27]),
{
    let parameters: Vec<ToolParam> = Vec::new();
    let t = tool("done", wording::DONE, parameters);
    assert(t.parameters@.map_values(|p: ToolParam| p@) =~= described(
        vocabulary()[27].params,
        descriptions()[27].params,
    ));
    t
}

/// The tool definitions surfaced to the reasoner: those of [`vocabulary`]
/// in the words of [`descriptions`], in the same order.
pub fn get_tool_definitions() -> (tools: Vec<Tool>)
    ensures
        tools@.len() == vocabulary().len() == descriptions().len() == 28,
        forall|i: int|
            0 <= i < 28 ==> (#[trigger] tools@[i]).defines(vocabulary()[i], descriptions()[i]),
{
    let mut tools: Vec<Tool> = Vec::new();
    tools.push(send_message_tool());
    tools.push(get_user_info_tool());
    tools.push(query_tool());
    tools.push(add_reaction_tool());
    tools.push(delete_message_tool());
    tools.push(mute_user_tool());
    tools.push(ban_user_tool());
    tools.push(kick_user_tool());
    tools.push(get_chat_admins_tool());
    tools.push(get_members_tool());
    tools.push(import_members_tool());
    tools.push(send_photo_tool());
    tools.push(send_voice_tool());
    tools.push(create_memory_tool());
    tools.push(read_memory_tool());
    tools.push(edit_memory_tool());
    tools.push(list_memories_tool());
    tools.push(search_memories_tool());
    tools.push(delete_memory_tool());
    tools.push(report_bug_tool());
    tools.push(youtube_info_tool());
    tools.push(noop_tool());
    tools.push(set_reminder_tool());
    tools.push(list_reminders_tool());
    tools.push(cancel_reminder_tool());
    tools.push(add_trusted_user_tool());
    tools.push(remove_trusted_user_tool());
    tools.push(done_tool());
    tools
}

} // verus!
