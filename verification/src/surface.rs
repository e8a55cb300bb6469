//! The tool surface: what each tool does with an intent before anything
//! outside the process is touched, and how an outcome becomes a result.
//!
//! [`plan_tool`] checks an intent against the rules of its tool
//! (authorization, path safety, read-only queries, reply threading) and
//! answers with the operation to perform, or with the refusal. A refused
//! intent has no effect.

use crate::archive::{
    check_query, query_fault, MemberFilter, DEFAULT_DAYS_INACTIVE, DEFAULT_MEMBER_LIMIT,
};
use crate::bridge::ToolResult;
use crate::context::{latest, ContextBuffer};
use crate::engine::{
    authorization, check_owner_dm_authorization, opt_text, owner_id, ChatbotConfig,
};
use crate::memory::{check_memory_path, check_was_read, path_fault, unread_fault, FilesRead};
use crate::reminders::{cron_error, parse_trigger_time_at, trigger_time, validate_cron};
use crate::message::{ChatMessage, ReplyTo};
use crate::text::{concat, decimal, push_decimal, push_str, string_of};
use crate::tools::ToolCall;
use std::collections::HashMap;
use vstd::prelude::*;

verus! {

/// An operation that a tool asks of the outside world, with every
/// argument checked and every default filled in.
#[derive(Debug)]
pub enum Plan {
    /// Send a message; `reply_to` is the message it answers, if any.
    SendMessage { chat_id: i64, text: String, reply_to: Option<i64> },
    UserInfoById { user_id: i64 },
    /// Look the user up in the archive by name first.
    UserInfoByName { username: String },
    /// Run the query, which has passed the read-only check.
    Query { sql: String },
    AddReaction { chat_id: i64, message_id: i64, emoji: String },
    DeleteMessage { chat_id: i64, message_id: i64 },
    /// Mute for `minutes` minutes, between 1 and 1440.
    MuteUser { chat_id: i64, user_id: i64, minutes: i64 },
    BanUser { chat_id: i64, user_id: i64 },
    /// Ban, then lift the ban at once.
    KickUser { chat_id: i64, user_id: i64 },
    GetChatAdmins { chat_id: i64 },
    GetMembers { filter: MemberFilter, days_inactive: i64, limit: i64 },
    ImportMembers { file_path: String },
    SendPhoto { chat_id: i64, prompt: String, caption: Option<String>, reply_to: Option<i64> },
    SendVoice { chat_id: i64, text: String, voice: Option<String>, reply_to: Option<i64> },
    CreateMemory { path: String, content: String },
    ReadMemory { path: String },
    EditMemory { path: String, old_string: String, new_string: String },
    ListMemories { path: Option<String> },
    SearchMemories { pattern: String, path: Option<String> },
    DeleteMemory { path: String },
    ReportBug { description: String, severity: Option<String> },
    YoutubeInfo { url: String },
    SetReminder { chat_id: i64, message: String, trigger_at: i64, repeat_cron: Option<String> },
    ListReminders { chat_id: Option<i64> },
    CancelReminder { reminder_id: i64 },
    AddTrustedUser { user_id: i64 },
    RemoveTrustedUser { user_id: i64 },
    /// Nothing is to be done.
    Nothing,
}

/// The message that a reply is threaded to where the intent names none:
/// the batch's last message, if the intent goes to that message's chat.
pub open spec fn default_thread(chat_id: i64, default_reply_to: Option<(i64, i64)>) -> Option<i64> {
    match default_reply_to {
        Some((message_id, from_chat)) => if from_chat == chat_id {
            Some(message_id)
        } else {
            None
        },
        None => None,
    }
}

/// The reply target of a photo or voice message.
pub open spec fn threaded(
    explicit: Option<i64>,
    chat_id: i64,
    default_reply_to: Option<(i64, i64)>,
) -> Option<i64> {
    match explicit {
        Some(id) => Some(id),
        None => default_thread(chat_id, default_reply_to),
    }
}

/// The reply target of a text message. A target that the intent names
/// must be a message of the same chat in the context buffer, or it is
/// dropped.
pub open spec fn message_thread(
    context: Seq<crate::message::ChatMessage>,
    explicit: Option<i64>,
    chat_id: i64,
    default_reply_to: Option<(i64, i64)>,
) -> Option<i64> {
    match explicit {
        Some(id) => match latest(context, id) {
            Some(i) => if context[i].chat_id == chat_id {
                Some(id)
            } else {
                None
            },
            None => None,
        },
        None => default_thread(chat_id, default_reply_to),
    }
}

/// `minutes` brought into the range that a mute may last.
pub open spec fn clamped_minutes(minutes: i64) -> i64 {
    if minutes < 1 {
        1
    } else if minutes > 1440 {
        1440
    } else {
        minutes
    }
}

/// Why a memory tool refuses `path`, if it does.
pub open spec fn memory_fault(has_data_dir: bool, path: Seq<char>) -> Option<Seq<char>> {
    if !has_data_dir {
        Some("No data_dir configured - memories disabled"@)
    } else {
        path_fault(path)
    }
}

/// Why a memory tool refuses an optional subdirectory, if it does.
pub open spec fn subdir_fault(has_data_dir: bool, path: Option<String>) -> Option<Seq<char>> {
    if !has_data_dir {
        Some("No data_dir configured - memories disabled"@)
    } else {
        match path {
            Some(p) => path_fault(p@),
            None => None,
        }
    }
}

/// Why a change of the trusted users is refused, if it is.
pub open spec fn trust_fault(
    config: ChatbotConfig,
    requester: Option<(i64, i64)>,
    user_id: i64,
    adding: bool,
) -> Option<Seq<char>> {
    let who = match requester {
        Some((user, _)) => Some(user),
        None => None,
    };
    let chat = match requester {
        Some((_, chat)) => Some(chat),
        None => None,
    };
    match authorization(owner_id(config), who, chat) {
        Err(why) => Some(why),
        Ok(()) => if adding && owner_id(config) == Some(user_id) {
            Some("Owner is already trusted by default"@)
        } else if config.config_path is None {
            Some("Config path not set"@)
        } else if adding && config.trusted_dm_users@.contains_key(user_id) {
            Some("User "@ + decimal(user_id as int) + " is already in trusted list"@)
        } else if !adding && !config.trusted_dm_users@.contains_key(user_id) {
            Some("User "@ + decimal(user_id as int) + " is not in trusted list"@)
        } else {
            None
        },
    }
}

/// What a tool intent leads to: the operation to perform, or the refusal.
pub open spec fn planned(
    call: ToolCall,
    context: Seq<crate::message::ChatMessage>,
    files_read: Set<Seq<char>>,
    config: ChatbotConfig,
    default_reply_to: Option<(i64, i64)>,
    requester: Option<(i64, i64)>,
    now: int,
) -> Result<Plan, Seq<char>> {
    let has_data_dir = config.data_dir is Some;
    match call {
        ToolCall::SendMessage { chat_id, text, reply_to_message_id } => Ok(
            Plan::SendMessage {
                chat_id,
                text,
                reply_to: message_thread(context, reply_to_message_id, chat_id, default_reply_to),
            },
        ),
        ToolCall::GetUserInfo { user_id, username } => match user_id {
            Some(id) => Ok(Plan::UserInfoById { user_id: id }),
            None => match username {
                Some(name) => Ok(Plan::UserInfoByName { username: name }),
                None => Err("get_user_info requires user_id or username"@),
            },
        },
        ToolCall::Query { sql } => match query_fault(sql@) {
            Some(why) => Err(why),
            None => Ok(Plan::Query { sql }),
        },
        ToolCall::AddReaction { chat_id, message_id, emoji } => Ok(
            Plan::AddReaction { chat_id, message_id, emoji },
        ),
        ToolCall::DeleteMessage { chat_id, message_id } => Ok(
            Plan::DeleteMessage { chat_id, message_id },
        ),
        ToolCall::MuteUser { chat_id, user_id, duration_minutes } => Ok(
            Plan::MuteUser { chat_id, user_id, minutes: clamped_minutes(duration_minutes) },
        ),
        ToolCall::BanUser { chat_id, user_id } => Ok(Plan::BanUser { chat_id, user_id }),
        ToolCall::KickUser { chat_id, user_id } => Ok(Plan::KickUser { chat_id, user_id }),
        ToolCall::GetChatAdmins { chat_id } => Ok(Plan::GetChatAdmins { chat_id }),
        ToolCall::GetMembers { filter, days_inactive, limit } => Ok(
            Plan::GetMembers {
                filter: MemberFilter::named(opt_text(filter)),
                days_inactive: match days_inactive {
                    Some(days) => days,
                    None => DEFAULT_DAYS_INACTIVE,
                },
                limit: match limit {
                    Some(n) => n,
                    None => DEFAULT_MEMBER_LIMIT,
                },
            },
        ),
        ToolCall::ImportMembers { file_path } => if has_data_dir {
            Ok(Plan::ImportMembers { file_path })
        } else {
            Err("No data_dir configured - import disabled"@)
        },
        ToolCall::SendPhoto { chat_id, prompt, caption, reply_to_message_id } => if config.gemini_api_key is None {
            Err("Gemini API key not configured"@)
        } else {
            Ok(
                Plan::SendPhoto {
                    chat_id,
                    prompt,
                    caption,
                    reply_to: threaded(reply_to_message_id, chat_id, default_reply_to),
                },
            )
        },
        ToolCall::SendVoice { chat_id, text, voice, reply_to_message_id } => if config.tts_endpoint is None {
            Err("TTS endpoint not configured"@)
        } else {
            Ok(
                Plan::SendVoice {
                    chat_id,
                    text,
                    voice,
                    reply_to: threaded(reply_to_message_id, chat_id, default_reply_to),
                },
            )
        },
        ToolCall::CreateMemory { path, content } => match memory_fault(has_data_dir, path@) {
            Some(why) => Err(why),
            None => Ok(Plan::CreateMemory { path, content }),
        },
        ToolCall::ReadMemory { path } => match memory_fault(has_data_dir, path@) {
            Some(why) => Err(why),
            None => Ok(Plan::ReadMemory { path }),
        },
        ToolCall::EditMemory { path, old_string, new_string } => if !files_read.contains(path@) {
            Err(unread_fault(path@))
        } else {
            match memory_fault(has_data_dir, path@) {
                Some(why) => Err(why),
                None => Ok(Plan::EditMemory { path, old_string, new_string }),
            }
        },
        ToolCall::ListMemories { path } => match subdir_fault(has_data_dir, path) {
            Some(why) => Err(why),
            None => Ok(Plan::ListMemories { path }),
        },
        ToolCall::SearchMemories { pattern, path } => match subdir_fault(has_data_dir, path) {
            Some(why) => Err(why),
            None => Ok(Plan::SearchMemories { pattern, path }),
        },
        ToolCall::DeleteMemory { path } => match memory_fault(has_data_dir, path@) {
            Some(why) => Err(why),
            None => Ok(Plan::DeleteMemory { path }),
        },
        ToolCall::ReportBug { description, severity } => if has_data_dir {
            Ok(Plan::ReportBug { description, severity })
        } else {
            Err("No data_dir configured"@)
        },
        ToolCall::YoutubeInfo { url } => Ok(Plan::YoutubeInfo { url }),
        ToolCall::SetReminder { chat_id, message, trigger_at, repeat_cron } => match trigger_time(
            trigger_at@,
            now,
        ) {
            Err(why) => Err(why),
            Ok(at) => match repeat_cron {
                Some(expr) => match cron_error(expr@) {
                    Some(e) => Err("Invalid cron: "@ + e),
                    None => Ok(
                        Plan::SetReminder {
                            chat_id,
                            message,
                            trigger_at: at as i64,
                            repeat_cron: Some(expr),
                        },
                    ),
                },
                None => Ok(
                    Plan::SetReminder { chat_id, message, trigger_at: at as i64, repeat_cron: None },
                ),
            },
        },
        ToolCall::ListReminders { chat_id } => Ok(Plan::ListReminders { chat_id }),
        ToolCall::CancelReminder { reminder_id } => Ok(Plan::CancelReminder { reminder_id }),
        ToolCall::AddTrustedUser { user_id } => match trust_fault(
            config,
            requester,
            user_id,
            true,
        ) {
            Some(why) => Err(why),
            None => Ok(Plan::AddTrustedUser { user_id }),
        },
        ToolCall::RemoveTrustedUser { user_id } => match trust_fault(
            config,
            requester,
            user_id,
            false,
        ) {
            Some(why) => Err(why),
            None => Ok(Plan::RemoveTrustedUser { user_id }),
        },
        ToolCall::Noop => Ok(Plan::Nothing),
        ToolCall::Done => Ok(Plan::Nothing),
        ToolCall::ParseError { message } => Err(message@),
    }
}

/// The view of a plan or its refusal.
pub open spec fn plan_view(r: Result<Plan, String>) -> Result<Plan, Seq<char>> {
    match r {
        Ok(plan) => Ok(plan),
        Err(why) => Err(why@),
    }
}

fn thread_default(chat_id: i64, default_reply_to: Option<(i64, i64)>) -> (r: Option<i64>)
    ensures
        r == default_thread(chat_id, default_reply_to),
{
    match default_reply_to {
        Some((message_id, from_chat)) => if from_chat == chat_id {
            Some(message_id)
        } else {
            None
        },
        None => None,
    }
}

/// Resolves the reply target of a photo or voice message.
pub fn thread_reply(explicit: Option<i64>, chat_id: i64, default_reply_to: Option<(i64, i64)>) -> (r:
    Option<i64>)
    ensures
        r == threaded(explicit, chat_id, default_reply_to),
{
    match explicit {
        Some(id) => Some(id),
        None => thread_default(chat_id, default_reply_to),
    }
}

/// Resolves the reply target of a text message.
pub fn thread_message(
    context: &ContextBuffer,
    explicit: Option<i64>,
    chat_id: i64,
    default_reply_to: Option<(i64, i64)>,
) -> (r: Option<i64>)
    requires
        context.wf(),
    ensures
        r == message_thread(context@, explicit, chat_id, default_reply_to),
{
    match explicit {
        Some(id) => match context.get_message(id) {
            Some(original) => if original.chat_id == chat_id {
                Some(id)
            } else {
                None
            },
            None => None,
        },
        None => thread_default(chat_id, default_reply_to),
    }
}

fn check_memory(has_data_dir: bool, path: &str) -> (r: Result<(), String>)
    ensures
        match r {
            Ok(()) => memory_fault(has_data_dir, path@) is None,
            Err(e) => memory_fault(has_data_dir, path@) == Some(e@),
        },
{
    if !has_data_dir {
        return Err("No data_dir configured - memories disabled".to_owned());
    }
    check_memory_path(path)
}

fn check_subdir(has_data_dir: bool, path: &Option<String>) -> (r: Result<(), String>)
    ensures
        match r {
            Ok(()) => subdir_fault(has_data_dir, *path) is None,
            Err(e) => subdir_fault(has_data_dir, *path) == Some(e@),
        },
{
    if !has_data_dir {
        return Err("No data_dir configured - memories disabled".to_owned());
    }
    match path {
        Some(p) => check_memory_path(p.as_str()),
        None => Ok(()),
    }
}

fn user_fault(user_id: i64, tail: &str) -> (out: String)
    ensures
        out@ == "User "@ + decimal(user_id as int) + tail@,
{
    let mut buf: Vec<char> = Vec::new();
    push_str(&mut buf, "User ");
    push_decimal(&mut buf, user_id);
    push_str(&mut buf, tail);
    string_of(&buf)
}

fn check_trust(
    config: &ChatbotConfig,
    requester: Option<(i64, i64)>,
    user_id: i64,
    adding: bool,
) -> (r: Result<(), String>)
    ensures
        match r {
            Ok(()) => trust_fault(*config, requester, user_id, adding) is None,
            Err(e) => trust_fault(*config, requester, user_id, adding) == Some(e@),
        },
{
    broadcast use vstd::std_specs::hash::group_hash_axioms;

    let (who, chat) = match requester {
        Some((user, chat)) => (Some(user), Some(chat)),
        None => (None, None),
    };
    match check_owner_dm_authorization(config, who, chat) {
        Ok(()) => {},
        Err(why) => {
            return Err(why);
        },
    }
    let is_owner = match &config.owner {
        Some(owner) => owner.id == user_id,
        None => false,
    };
    if adding && is_owner {
        return Err("Owner is already trusted by default".to_owned());
    }
    if config.config_path.is_none() {
        return Err("Config path not set".to_owned());
    }
    let listed = config.trusted_dm_users.contains_key(&user_id);
    if adding && listed {
        return Err(user_fault(user_id, " is already in trusted list"));
    }
    if !adding && !listed {
        return Err(user_fault(user_id, " is not in trusted list"));
    }
    Ok(())
}

/// Plans the execution of a tool intent.
///
/// `context` and `files_read` are the engine's context buffer and the
/// memory files read in this turn; `default_reply_to` and `requester` come
/// from the batch; `now` is the present instant.
pub fn plan_tool(
    call: ToolCall,
    context: &ContextBuffer,
    files_read: &FilesRead,
    config: &ChatbotConfig,
    default_reply_to: Option<(i64, i64)>,
    requester: Option<(i64, i64)>,
    now: i64,
) -> (r: Result<Plan, String>)
    requires
        context.wf(),
    ensures
        plan_view(r) == planned(
            call,
            context@,
            files_read@,
            *config,
            default_reply_to,
            requester,
            now as int,
        ),
{
    let has_data_dir = config.data_dir.is_some();
    match call {
        ToolCall::SendMessage { chat_id, text, reply_to_message_id } => {
            let reply_to = thread_message(context, reply_to_message_id, chat_id, default_reply_to);
            Ok(Plan::SendMessage { chat_id, text, reply_to })
        },
        ToolCall::GetUserInfo { user_id, username } => match user_id {
            Some(id) => Ok(Plan::UserInfoById { user_id: id }),
            None => match username {
                Some(name) => Ok(Plan::UserInfoByName { username: name }),
                None => Err("get_user_info requires user_id or username".to_owned()),
            },
        },
        ToolCall::Query { sql } => match check_query(sql.as_str()) {
            Ok(()) => Ok(Plan::Query { sql }),
            Err(why) => Err(why),
        },
        ToolCall::AddReaction { chat_id, message_id, emoji } => Ok(
            Plan::AddReaction { chat_id, message_id, emoji },
        ),
        ToolCall::DeleteMessage { chat_id, message_id } => Ok(
            Plan::DeleteMessage { chat_id, message_id },
        ),
        ToolCall::MuteUser { chat_id, user_id, duration_minutes } => {
            let minutes = if duration_minutes < 1 {
                1
            } else if duration_minutes > 1440 {
                1440
            } else {
                duration_minutes
            };
            Ok(Plan::MuteUser { chat_id, user_id, minutes })
        },
        ToolCall::BanUser { chat_id, user_id } => Ok(Plan::BanUser { chat_id, user_id }),
        ToolCall::KickUser { chat_id, user_id } => Ok(Plan::KickUser { chat_id, user_id }),
        ToolCall::GetChatAdmins { chat_id } => Ok(Plan::GetChatAdmins { chat_id }),
        ToolCall::GetMembers { filter, days_inactive, limit } => {
            let filter = match &filter {
                Some(name) => MemberFilter::parse(Some(name.as_str())),
                None => MemberFilter::parse(None),
            };
            let days_inactive = match days_inactive {
                Some(days) => days,
                None => DEFAULT_DAYS_INACTIVE,
            };
            let limit = match limit {
                Some(n) => n,
                None => DEFAULT_MEMBER_LIMIT,
            };
            Ok(Plan::GetMembers { filter, days_inactive, limit })
        },
        ToolCall::ImportMembers { file_path } => if has_data_dir {
            Ok(Plan::ImportMembers { file_path })
        } else {
            Err("No data_dir configured - import disabled".to_owned())
        },
        ToolCall::SendPhoto { chat_id, prompt, caption, reply_to_message_id } => {
            if config.gemini_api_key.is_none() {
                return Err("Gemini API key not configured".to_owned());
            }
            let reply_to = thread_reply(reply_to_message_id, chat_id, default_reply_to);
            Ok(Plan::SendPhoto { chat_id, prompt, caption, reply_to })
        },
        ToolCall::SendVoice { chat_id, text, voice, reply_to_message_id } => {
            if config.tts_endpoint.is_none() {
                return Err("TTS endpoint not configured".to_owned());
            }
            let reply_to = thread_reply(reply_to_message_id, chat_id, default_reply_to);
            Ok(Plan::SendVoice { chat_id, text, voice, reply_to })
        },
        ToolCall::CreateMemory { path, content } => match check_memory(
            has_data_dir,
            path.as_str(),
        ) {
            Ok(()) => Ok(Plan::CreateMemory { path, content }),
            Err(why) => Err(why),
        },
        ToolCall::ReadMemory { path } => match check_memory(has_data_dir, path.as_str()) {
            Ok(()) => Ok(Plan::ReadMemory { path }),
            Err(why) => Err(why),
        },
        ToolCall::EditMemory { path, old_string, new_string } => {
            match check_was_read(files_read, path.as_str()) {
                Ok(()) => {},
                Err(why) => {
                    return Err(why);
                },
            }
            match check_memory(has_data_dir, path.as_str()) {
                Ok(()) => Ok(Plan::EditMemory { path, old_string, new_string }),
                Err(why) => Err(why),
            }
        },
        ToolCall::ListMemories { path } => match check_subdir(has_data_dir, &path) {
            Ok(()) => Ok(Plan::ListMemories { path }),
            Err(why) => Err(why),
        },
        ToolCall::SearchMemories { pattern, path } => match check_subdir(has_data_dir, &path) {
            Ok(()) => Ok(Plan::SearchMemories { pattern, path }),
            Err(why) => Err(why),
        },
        ToolCall::DeleteMemory { path } => match check_memory(has_data_dir, path.as_str()) {
            Ok(()) => Ok(Plan::DeleteMemory { path }),
            Err(why) => Err(why),
        },
        ToolCall::ReportBug { description, severity } => if has_data_dir {
            Ok(Plan::ReportBug { description, severity })
        } else {
            Err("No data_dir configured".to_owned())
        },
        ToolCall::YoutubeInfo { url } => Ok(Plan::YoutubeInfo { url }),
        ToolCall::SetReminder { chat_id, message, trigger_at, repeat_cron } => {
            let at = match parse_trigger_time_at(trigger_at.as_str(), now) {
                Ok(at) => at,
                Err(why) => {
                    return Err(why);
                },
            };
            match &repeat_cron {
                Some(expr) => match validate_cron(expr.as_str()) {
                    Ok(()) => {},
                    Err(why) => {
                        return Err(why);
                    },
                },
                None => {},
            }
            Ok(Plan::SetReminder { chat_id, message, trigger_at: at, repeat_cron })
        },
        ToolCall::ListReminders { chat_id } => Ok(Plan::ListReminders { chat_id }),
        ToolCall::CancelReminder { reminder_id } => Ok(Plan::CancelReminder { reminder_id }),
        ToolCall::AddTrustedUser { user_id } => match check_trust(
            config,
            requester,
            user_id,
            true,
        ) {
            Ok(()) => Ok(Plan::AddTrustedUser { user_id }),
            Err(why) => Err(why),
        },
        ToolCall::RemoveTrustedUser { user_id } => match check_trust(
            config,
            requester,
            user_id,
            false,
        ) {
            Ok(()) => Ok(Plan::RemoveTrustedUser { user_id }),
            Err(why) => Err(why),
        },
        ToolCall::Noop => Ok(Plan::Nothing),
        ToolCall::Done => Ok(Plan::Nothing),
        ToolCall::ParseError { message } => Err(message),
    }
}

/// The text of a failure as the reasoner sees it.
pub open spec fn failure_text(why: Seq<char>) -> Seq<char> {
    "error: "@ + why
}

/// Folds the outcome of a tool into its result. A failure is not fatal to
/// the turn: it becomes an error result, which the reasoner gets to see.
pub fn conclude_tool(
    tool_use_id: String,
    outcome: Result<Option<String>, String>,
    image: Option<(Vec<u8>, String)>,
) -> (result: ToolResult)
    ensures
        result.tool_use_id == tool_use_id,
        match outcome {
            Ok(content) => {
                &&& result.content == content
                &&& !result.is_error
                &&& result.image == image
            },
            Err(why) => {
                &&& result.content matches Some(text)
                &&& text@ == failure_text(why@)
                &&& result.is_error
                &&& result.image is None
            },
        },
{
    match outcome {
        Ok(content) => ToolResult { tool_use_id, content, is_error: false, image },
        Err(why) => ToolResult {
            tool_use_id,
            content: Some(concat("error: ", why.as_str())),
            is_error: true,
            image: None,
        },
    }
}

/// The result that demands a tool call from a reasoner that made none.
pub fn missing_tool_result() -> (result: ToolResult)
    ensures
        result.tool_use_id@ == "error"@,
        result.content matches Some(text) && text@
            == "ERROR: You must call at least one tool. Use the 'done' tool when you have nothing more to do."@,
        result.is_error,
        result.image is None,
{
    ToolResult {
        tool_use_id: "error".to_owned(),
        content: Some(
            "ERROR: You must call at least one tool. Use the 'done' tool when you have nothing more to do.".to_owned(),
        ),
        is_error: true,
        image: None,
    }
}

/// The path that a memory tool is given, if `call` is one and names a path.
pub open spec fn memory_path(call: ToolCall) -> Option<Seq<char>> {
    match call {
        ToolCall::CreateMemory { path, .. } => Some(path@),
        ToolCall::ReadMemory { path } => Some(path@),
        ToolCall::EditMemory { path, .. } => Some(path@),
        ToolCall::ListMemories { path: Some(path) } => Some(path@),
        ToolCall::SearchMemories { path: Some(path), .. } => Some(path@),
        ToolCall::DeleteMemory { path } => Some(path@),
        _ => None,
    }
}

/// Path safety: a memory tool whose path is empty, starts with `/` or `\`,
/// or contains `..` is refused. No operation is planned, so nothing in the
/// file system changes.
pub proof fn lemma_unsafe_path_is_refused(
    call: ToolCall,
    context: Seq<crate::message::ChatMessage>,
    files_read: Set<Seq<char>>,
    config: ChatbotConfig,
    default_reply_to: Option<(i64, i64)>,
    requester: Option<(i64, i64)>,
    now: int,
)
    requires
        memory_path(call) matches Some(path) && !crate::memory::path_is_safe(path),
    ensures
        planned(call, context, files_read, config, default_reply_to, requester, now) is Err,
{
}

/// Query safety: a query that, trimmed and in capitals, does not begin
/// with `SELECT`, or that holds a forbidden word, is refused. No operation
/// is planned, so no row is read.
pub proof fn lemma_unsafe_query_is_refused(
    sql: String,
    context: Seq<crate::message::ChatMessage>,
    files_read: Set<Seq<char>>,
    config: ChatbotConfig,
    default_reply_to: Option<(i64, i64)>,
    requester: Option<(i64, i64)>,
    now: int,
)
    requires
        !crate::archive::is_read_only(sql@),
    ensures
        planned(
            ToolCall::Query { sql },
            context,
            files_read,
            config,
            default_reply_to,
            requester,
            now,
        ) is Err,
{
    let words = crate::archive::forbidden_words();
    assert(words[0] == "INSERT"@ && words[1] == "UPDATE"@ && words[2] == "DELETE"@ && words[3]
        == "DROP"@ && words[4] == "ALTER"@ && words[5] == "CREATE"@ && words[6] == "ATTACH"@
        && words[7] == "DETACH"@);
}

/// Reply threading: a text message without a reply target that goes to the
/// chat of the batch's last message answers that message; one that goes to
/// another chat answers none.
pub proof fn lemma_reply_is_threaded(
    chat_id: i64,
    text: String,
    context: Seq<crate::message::ChatMessage>,
    files_read: Set<Seq<char>>,
    config: ChatbotConfig,
    last_message_id: i64,
    last_chat_id: i64,
    requester: Option<(i64, i64)>,
    now: int,
)
    ensures
        planned(
            ToolCall::SendMessage { chat_id, text, reply_to_message_id: None },
            context,
            files_read,
            config,
            Some((last_message_id, last_chat_id)),
            requester,
            now,
        ) == Ok::<Plan, Seq<char>>(
            Plan::SendMessage {
                chat_id,
                text,
                reply_to: if chat_id == last_chat_id {
                    Some(last_message_id)
                } else {
                    None
                },
            },
        ),
{
}

/// An edit of a memory file that was not read in this turn is refused
/// before anything else is looked at.
pub proof fn lemma_edit_needs_read(
    path: String,
    old_string: String,
    new_string: String,
    context: Seq<crate::message::ChatMessage>,
    files_read: Set<Seq<char>>,
    config: ChatbotConfig,
    default_reply_to: Option<(i64, i64)>,
    requester: Option<(i64, i64)>,
    now: int,
)
    requires
        !files_read.contains(path@),
    ensures
        planned(
            ToolCall::EditMemory { path, old_string, new_string },
            context,
            files_read,
            config,
            default_reply_to,
            requester,
            now,
        ) == Err::<Plan, Seq<char>>(unread_fault(path@)),
{
}

/// Only the owner, writing in the owner's private chat, changes who is trusted.
pub proof fn lemma_trust_needs_owner(
    user_id: i64,
    adding: bool,
    config: ChatbotConfig,
    requester: Option<(i64, i64)>,
)
    requires
        trust_fault(config, requester, user_id, adding) is None,
    ensures
        config.owner matches Some(owner) && requester == Some((owner.id, owner.id)),
{
}

/// The name under which the bot's own messages are recorded.
pub open spec fn bot_name() -> Seq<char> {
    "Claudima"@
}

/// Whether `msg` is the record of a message that the bot sent: it is
/// attributed to the bot and quotes the message it answers, if that
/// message is in the context buffer.
pub open spec fn is_outgoing(
    msg: ChatMessage,
    context: Seq<ChatMessage>,
    message_id: i64,
    chat_id: i64,
    bot_user_id: i64,
    text: String,
    timestamp: String,
    reply_to: Option<i64>,
) -> bool {
    &&& msg.message_id == message_id
    &&& msg.chat_id == chat_id
    &&& msg.user_id == bot_user_id
    &&& msg.username@ == bot_name()
    &&& msg.timestamp == timestamp
    &&& msg.text == text
    &&& msg.image is None
    &&& msg.voice_transcription is None
    &&& msg.documents@.len() == 0
    &&& match reply_to {
        Some(id) => match latest(context, id) {
            Some(i) => msg.reply_to == Some(
                ReplyTo { message_id: id, username: context[i].username, text: context[i].text },
            ),
            None => msg.reply_to is None,
        },
        None => msg.reply_to is None,
    }
}

/// Builds the record of a message that the bot sent, for the archive and
/// the context buffer.
pub fn outgoing_message(
    context: &ContextBuffer,
    message_id: i64,
    chat_id: i64,
    bot_user_id: i64,
    text: String,
    timestamp: String,
    reply_to: Option<i64>,
) -> (msg: ChatMessage)
    requires
        context.wf(),
    ensures
        is_outgoing(msg, context@, message_id, chat_id, bot_user_id, text, timestamp, reply_to),
{
    let quoted = match reply_to {
        Some(id) => match context.get_message(id) {
            Some(original) => Some(
                ReplyTo {
                    message_id: id,
                    username: original.username.clone(),
                    text: original.text.clone(),
                },
            ),
            None => None,
        },
        None => None,
    };
    ChatMessage {
        message_id,
        chat_id,
        user_id: bot_user_id,
        username: "Claudima".to_owned(),
        timestamp,
        text,
        reply_to: quoted,
        image: None,
        voice_transcription: None,
        documents: Vec::new(),
    }
}

/// The line that tells the owner of an administrative action, if the plan is one.
pub open spec fn audit_text(plan: Plan) -> Option<Seq<char>> {
    match plan {
        Plan::DeleteMessage { chat_id, message_id } => Some(
            "🗑️ Deleted message "@ + decimal(message_id as int) + " in chat "@ + decimal(
                chat_id as int,
            ),
        ),
        Plan::MuteUser { chat_id, user_id, minutes } => Some(
            "🔇 Muted user "@ + decimal(user_id as int) + " for "@ + decimal(minutes as int)
                + " min in chat "@ + decimal(chat_id as int),
        ),
        Plan::BanUser { chat_id, user_id } => Some(
            "🚫 Banned user "@ + decimal(user_id as int) + " from chat "@ + decimal(
                chat_id as int,
            ),
        ),
        Plan::KickUser { chat_id, user_id } => Some(
            "👢 Kicked user "@ + decimal(user_id as int) + " from chat "@ + decimal(
                chat_id as int,
            ),
        ),
        _ => None,
    }
}

/// The audit line that goes to the owner once an administrative action
/// has succeeded.
pub fn audit_line(plan: &Plan) -> (line: Option<String>)
    ensures
        opt_text(line) == audit_text(*plan),
{
    let mut buf: Vec<char> = Vec::new();
    match plan {
        Plan::DeleteMessage { chat_id, message_id } => {
            push_str(&mut buf, "🗑️ Deleted message ");
            push_decimal(&mut buf, *message_id);
            push_str(&mut buf, " in chat ");
            push_decimal(&mut buf, *chat_id);
            assert(Some(buf@) =~= audit_text(*plan));
            Some(string_of(&buf))
        },
        Plan::MuteUser { chat_id, user_id, minutes } => {
            push_str(&mut buf, "🔇 Muted user ");
            push_decimal(&mut buf, *user_id);
            push_str(&mut buf, " for ");
            push_decimal(&mut buf, *minutes);
            push_str(&mut buf, " min in chat ");
            push_decimal(&mut buf, *chat_id);
            assert(Some(buf@) =~= audit_text(*plan));
            Some(string_of(&buf))
        },
        Plan::BanUser { chat_id, user_id } => {
            push_str(&mut buf, "🚫 Banned user ");
            push_decimal(&mut buf, *user_id);
            push_str(&mut buf, " from chat ");
            push_decimal(&mut buf, *chat_id);
            assert(Some(buf@) =~= audit_text(*plan));
            Some(string_of(&buf))
        },
        Plan::KickUser { chat_id, user_id } => {
            push_str(&mut buf, "👢 Kicked user ");
            push_decimal(&mut buf, *user_id);
            push_str(&mut buf, " from chat ");
            push_decimal(&mut buf, *chat_id);
            assert(Some(buf@) =~= audit_text(*plan));
            Some(string_of(&buf))
        },
        _ => None,
    }
}

/// What the reasoner is told after a photo was generated and sent.
pub fn photo_sent_text(prompt: &str) -> (out: String)
    ensures
        out@ == "Image generated and sent (prompt: "@ + prompt@ + ")"@,
{
    let mut buf: Vec<char> = Vec::new();
    push_str(&mut buf, "Image generated and sent (prompt: ");
    push_str(&mut buf, prompt);
    push_str(&mut buf, ")");
    string_of(&buf)
}

/// What the reasoner is told after a user was added to the trusted users.
pub fn trusted_added_text(user_id: i64, username: Option<&str>) -> (out: String)
    ensures
        out@ == "Added user "@ + decimal(user_id as int) + match username {
            Some(name) => " (@"@ + name@ + ")"@,
            None => Seq::empty(),
        } + " to trusted DM users. They can now DM the bot."@,
{
    let mut buf: Vec<char> = Vec::new();
    push_str(&mut buf, "Added user ");
    push_decimal(&mut buf, user_id);
    match username {
        Some(name) => {
            let ghost before = buf@;
            push_str(&mut buf, " (@");
            push_str(&mut buf, name);
            push_str(&mut buf, ")");
            assert(buf@ =~= before + (" (@"@ + name@ + ")"@));
        },
        None => {
            assert(buf@ =~= buf@ + Seq::<char>::empty());
        },
    }
    push_str(&mut buf, " to trusted DM users. They can now DM the bot.");
    string_of(&buf)
}

/// What the reasoner is told after a user was removed from the trusted users.
pub fn trusted_removed_text(user_id: i64) -> (out: String)
    ensures
        out@ == "Removed user "@ + decimal(user_id as int) + " from trusted DM users."@,
{
    let mut buf: Vec<char> = Vec::new();
    push_str(&mut buf, "Removed user ");
    push_decimal(&mut buf, user_id);
    push_str(&mut buf, " from trusted DM users.");
    string_of(&buf)
}

/// What the reasoner is told when a reminder to cancel is not there.
pub fn reminder_missing_text(reminder_id: i64) -> (out: String)
    ensures
        out@ == "Reminder #"@ + decimal(reminder_id as int) + " not found or already cancelled"@,
{
    let mut buf: Vec<char> = Vec::new();
    push_str(&mut buf, "Reminder #");
    push_decimal(&mut buf, reminder_id);
    push_str(&mut buf, " not found or already cancelled");
    string_of(&buf)
}

/// The record that a bug report appends to the feedback log.
pub open spec fn feedback_entry(timestamp: Seq<char>, severity: Option<Seq<char>>, description: Seq<
    char,
>) -> Seq<char> {
    "\n---\n["@ + timestamp + "] severity="@ + match severity {
        Some(s) => s,
        None => "medium"@,
    } + "\n"@ + description + "\n"@
}

/// Builds the record of a bug report. A report without severity counts as medium.
pub fn feedback_record(timestamp: &str, severity: Option<&str>, description: &str) -> (out: String)
    ensures
        out@ == feedback_entry(
            timestamp@,
            match severity {
                Some(s) => Some(s@),
                None => None,
            },
            description@,
        ),
{
    let mut buf: Vec<char> = Vec::new();
    push_str(&mut buf, "\n---\n[");
    push_str(&mut buf, timestamp);
    push_str(&mut buf, "] severity=");
    match severity {
        Some(s) => push_str(&mut buf, s),
        None => push_str(&mut buf, "medium"),
    }
    push_str(&mut buf, "\n");
    push_str(&mut buf, description);
    push_str(&mut buf, "\n");
    string_of(&buf)
}

/// The trusted users after the entry of `user_id` was set to `entry`:
/// `Some` lists the user with the given username, `None` removes the user.
pub open spec fn trust_set(
    trusted: Map<i64, Option<String>>,
    user_id: i64,
    entry: Option<Option<String>>,
) -> Map<i64, Option<String>> {
    match entry {
        Some(username) => trusted.insert(user_id, username),
        None => trusted.remove(user_id),
    }
}

/// The entry of `user_id` among the trusted users, if the user is listed.
pub open spec fn trust_entry(trusted: Map<i64, Option<String>>, user_id: i64) -> Option<
    Option<String>,
> {
    if trusted.contains_key(user_id) {
        Some(trusted[user_id])
    } else {
        None
    }
}

/// Sets the entry of a user among the trusted users and hands back the
/// entry that was there before, so that the change can be taken back when
/// it cannot be written to the configuration file.
pub fn set_trusted(
    trusted: &mut HashMap<i64, Option<String>>,
    user_id: i64,
    entry: Option<Option<String>>,
) -> (previous: Option<Option<String>>)
    ensures
        final(trusted)@ == trust_set(old(trusted)@, user_id, entry),
        previous == trust_entry(old(trusted)@, user_id),
{
    broadcast use vstd::std_specs::hash::group_hash_axioms;

    match entry {
        Some(username) => trusted.insert(user_id, username),
        None => trusted.remove(&user_id),
    }
}

/// Rollback: setting an entry and then setting the entry that was there
/// before leaves the trusted users as they were.
pub proof fn lemma_trust_rollback(
    trusted: Map<i64, Option<String>>,
    user_id: i64,
    entry: Option<Option<String>>,
)
    ensures
        trust_set(trust_set(trusted, user_id, entry), user_id, trust_entry(trusted, user_id))
            == trusted,
{
    let back = trust_set(trust_set(trusted, user_id, entry), user_id, trust_entry(trusted, user_id));
    assert(back =~= trusted);
}

} // verus!
