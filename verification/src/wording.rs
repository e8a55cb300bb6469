//! The words in which the tools and their parameters are described to the
//! reasoner, tool by tool in the order of the vocabulary.

use vstd::prelude::*;

verus! {

/// What `send_message` does.
pub const SEND_MESSAGE: &'static str =
    "Send a message to a chat. Use the chat_id from the message you're responding to.";

pub const SEND_MESSAGE_CHAT_ID: &'static str =
    "Target chat ID (use the chat_id from the incoming message)";

pub const SEND_MESSAGE_TEXT: &'static str =
    "The message text to send";

pub const SEND_MESSAGE_REPLY_TO_MESSAGE_ID: &'static str =
    "Optional message ID to reply to";

/// What `get_user_info` does.
pub const GET_USER_INFO: &'static str =
    "Get detailed information about a user including their profile photo. Returns: user_id, username, first_name, last_name, is_bot, is_premium, language_code, status (owner/administrator/member/restricted/banned), custom_title, and profile_photo_base64. Username lookup only works for users seen in the group.";

pub const GET_USER_INFO_USER_ID: &'static str =
    "The user ID to look up";

pub const GET_USER_INFO_USERNAME: &'static str =
    "Username to look up (case-insensitive partial match)";

/// What `query` does.
pub const QUERY: &'static str =
    "Execute a SQL SELECT query on the database. Tables: 'messages' (message_id, chat_id, user_id, username, timestamp, text, reply_to_id, reply_to_username, reply_to_text) and 'users' (user_id, username, first_name, join_date, last_message_date, message_count, status). Indexes exist on timestamp, user_id, username. Max 100 rows returned, text truncated to 100 chars.";

pub const QUERY_SQL: &'static str =
    "SQL SELECT query. Only SELECT is allowed. Examples: 'SELECT * FROM messages ORDER BY timestamp DESC LIMIT 10', 'SELECT username, message_count FROM users WHERE status = \"member\" ORDER BY message_count DESC LIMIT 20'";

/// What `add_reaction` does.
pub const ADD_REACTION: &'static str =
    "Add an emoji reaction to a message. Use sparingly - only when a reaction is more appropriate than a reply.";

pub const ADD_REACTION_CHAT_ID: &'static str =
    "Target chat ID (use the chat_id from the message)";

pub const ADD_REACTION_MESSAGE_ID: &'static str =
    "Message ID to react to";

pub const ADD_REACTION_EMOJI: &'static str =
    "Emoji to react with (e.g. 👍, ❤, 🔥, 😂, 🎉, 👀, 🤔)";

/// What `delete_message` does.
pub const DELETE_MESSAGE: &'static str =
    "Delete a message. Use for spam, abuse, or rule violations. Owner will be notified.";

pub const DELETE_MESSAGE_CHAT_ID: &'static str =
    "Chat ID";

pub const DELETE_MESSAGE_MESSAGE_ID: &'static str =
    "Message ID to delete";

/// What `mute_user` does.
pub const MUTE_USER: &'static str =
    "Temporarily mute a user (prevent them from posting). Use for minor violations. Duration 1-1440 minutes. Owner will be notified.";

pub const MUTE_USER_CHAT_ID: &'static str =
    "Chat ID";

pub const MUTE_USER_USER_ID: &'static str =
    "User ID to mute";

pub const MUTE_USER_DURATION_MINUTES: &'static str =
    "Duration in minutes (1-1440)";

/// What `ban_user` does.
pub const BAN_USER: &'static str =
    "Permanently ban a user. Use only for severe abuse (spam bots, repeated violations). Owner will be notified.";

pub const BAN_USER_CHAT_ID: &'static str =
    "Chat ID";

pub const BAN_USER_USER_ID: &'static str =
    "User ID to ban";

/// What `kick_user` does.
pub const KICK_USER: &'static str =
    "Kick a user from the group. Softer than ban - they can rejoin via invite link. Use for inactive members or minor issues. Owner will be notified.";

pub const KICK_USER_CHAT_ID: &'static str =
    "Chat ID";

pub const KICK_USER_USER_ID: &'static str =
    "User ID to kick";

/// What `get_chat_admins` does.
pub const GET_CHAT_ADMINS: &'static str =
    "Get list of chat administrators.";

pub const GET_CHAT_ADMINS_CHAT_ID: &'static str =
    "Chat ID";

/// What `get_members` does.
pub const GET_MEMBERS: &'static str =
    "Get list of known members from the database. Only includes members tracked since this feature was enabled.";

pub const GET_MEMBERS_FILTER: &'static str =
    "Filter: 'all', 'active', 'inactive', 'never_posted', 'left', 'banned' (default 'all')";

pub const GET_MEMBERS_DAYS_INACTIVE: &'static str =
    "For 'inactive' filter: min days since last post (default 30)";

pub const GET_MEMBERS_LIMIT: &'static str =
    "Max users to return (default 50)";

/// What `import_members` does.
pub const IMPORT_MEMBERS: &'static str =
    "Import members from a JSON file (for backfilling from browser extension export). Only the owner can use this.";

pub const IMPORT_MEMBERS_FILE_PATH: &'static str =
    "Path to JSON file with member array";

/// What `send_photo` does.
pub const SEND_PHOTO: &'static str =
    "Generate an AI image and send it to a chat.";

pub const SEND_PHOTO_CHAT_ID: &'static str =
    "Target chat ID";

pub const SEND_PHOTO_PROMPT: &'static str =
    "Text prompt describing the image to generate";

pub const SEND_PHOTO_CAPTION: &'static str =
    "Optional caption for the image";

pub const SEND_PHOTO_REPLY_TO_MESSAGE_ID: &'static str =
    "Optional message ID to reply to";

/// What `send_voice` does.
pub const SEND_VOICE: &'static str =
    "Send a voice message using text-to-speech. Use this to speak to users instead of typing. Good for greetings, announcements, or when a voice reply feels more personal.";

pub const SEND_VOICE_CHAT_ID: &'static str =
    "Target chat ID";

pub const SEND_VOICE_TEXT: &'static str =
    "Text to convert to speech";

pub const SEND_VOICE_VOICE: &'static str =
    "Voice name (default: 'af_heart' - American English female). Options: af_heart, af_bella, am_adam, am_michael";

pub const SEND_VOICE_REPLY_TO_MESSAGE_ID: &'static str =
    "Optional message ID to reply to";

/// What `create_memory` does.
pub const CREATE_MEMORY: &'static str =
    "Create a new memory file. Fails if file already exists - use edit_memory to modify existing files.";

pub const CREATE_MEMORY_PATH: &'static str =
    "Relative path within memories directory (e.g. 'users/nodir.md')";

pub const CREATE_MEMORY_CONTENT: &'static str =
    "Content to write to the file";

/// What `read_memory` does.
pub const READ_MEMORY: &'static str =
    "Read a memory file. Returns content with line numbers. Must read before editing.";

pub const READ_MEMORY_PATH: &'static str =
    "Relative path within memories directory";

/// What `edit_memory` does.
pub const EDIT_MEMORY: &'static str =
    "Edit a memory file by replacing a string. File must have been read first in this session.";

pub const EDIT_MEMORY_PATH: &'static str =
    "Relative path within memories directory";

pub const EDIT_MEMORY_OLD_STRING: &'static str =
    "Exact string to find and replace";

pub const EDIT_MEMORY_NEW_STRING: &'static str =
    "Replacement string";

/// What `list_memories` does.
pub const LIST_MEMORIES: &'static str =
    "List files in the memories directory.";

pub const LIST_MEMORIES_PATH: &'static str =
    "Optional subdirectory path (default: root)";

/// What `search_memories` does.
pub const SEARCH_MEMORIES: &'static str =
    "Search for a pattern across memory files (like grep).";

pub const SEARCH_MEMORIES_PATTERN: &'static str =
    "Search pattern (substring match)";

pub const SEARCH_MEMORIES_PATH: &'static str =
    "Optional subdirectory to search in";

/// What `delete_memory` does.
pub const DELETE_MEMORY: &'static str =
    "Delete a memory file.";

pub const DELETE_MEMORY_PATH: &'static str =
    "Relative path within memories directory";

/// What `report_bug` does.
pub const REPORT_BUG: &'static str =
    "Report a bug or issue to the developer. Use this when you encounter unexpected behavior, errors, or problems you can't resolve. The developer monitors these reports and will fix issues.";

pub const REPORT_BUG_DESCRIPTION: &'static str =
    "Detailed description of the bug or issue";

pub const REPORT_BUG_SEVERITY: &'static str =
    "Severity level: low, medium, high, or critical";

/// What `youtube_info` does.
pub const YOUTUBE_INFO: &'static str =
    "Get metadata about a YouTube video (title, author, thumbnail). Works with youtube.com and youtu.be URLs.";

pub const YOUTUBE_INFO_URL: &'static str =
    "YouTube video URL (e.g. https://www.youtube.com/watch?v=xyz or https://youtu.be/xyz)";

/// What `noop` does.
pub const NOOP: &'static str =
    "Do nothing - use this to acknowledge a system message or notification without taking any action.";

/// What `set_reminder` does.
pub const SET_REMINDER: &'static str =
    "Set a reminder to send a message at a future time. Use for scheduling messages, alerts, or recurring announcements.";

pub const SET_REMINDER_CHAT_ID: &'static str =
    "Chat ID where the reminder will be sent";

pub const SET_REMINDER_MESSAGE: &'static str =
    "The message to send when the reminder triggers";

pub const SET_REMINDER_TRIGGER_AT: &'static str =
    "When to trigger: relative ('+30m', '+2h', '+1d') or absolute ('2026-01-25 15:00')";

pub const SET_REMINDER_REPEAT_CRON: &'static str =
    "Optional 7-field cron (sec min hour day month dow year). E.g. '0 0 9 * * * *' for daily 9am, '0 0 0 * * 1 *' for Mondays";

/// What `list_reminders` does.
pub const LIST_REMINDERS: &'static str =
    "List active reminders. Returns ID, message, trigger time, and whether it's recurring.";

pub const LIST_REMINDERS_CHAT_ID: &'static str =
    "Optional chat ID to filter by (omit for all)";

/// What `cancel_reminder` does.
pub const CANCEL_REMINDER: &'static str =
    "Cancel a reminder by its ID. Get the ID from list_reminders.";

pub const CANCEL_REMINDER_REMINDER_ID: &'static str =
    "The reminder ID to cancel";

/// What `add_trusted_user` does.
pub const ADD_TRUSTED_USER: &'static str =
    "Add a user to the trusted DM users list. Only the owner can use this. After adding, the bot will restart to apply changes.";

pub const ADD_TRUSTED_USER_USER_ID: &'static str =
    "User ID to add to trusted list";

/// What `remove_trusted_user` does.
pub const REMOVE_TRUSTED_USER: &'static str =
    "Remove a user from the trusted DM users list. Only the owner can use this. After removing, the bot will restart to apply changes.";

pub const REMOVE_TRUSTED_USER_USER_ID: &'static str =
    "User ID to remove from trusted list";

/// What `done` does.
pub const DONE: &'static str =
    "Signal that you're done processing. Call this when you have nothing more to do. You don't have to respond to every message - if there's nothing to say, just call done.";

/// How a tool is described: what it does, and each of its parameters in order.
pub struct ToolWording {
    pub about: Seq<char>,
    pub params: Seq<Seq<char>>,
}

/// The description of a tool.
pub open spec fn words(about: Seq<char>, params: Seq<Seq<char>>) -> ToolWording {
    ToolWording { about, params }
}

/// The descriptions of the tools, in the order of the vocabulary.
pub open spec fn descriptions() -> Seq<ToolWording> {
    seq![
        words(
            SEND_MESSAGE@,
            seq![
                SEND_MESSAGE_CHAT_ID@,
                SEND_MESSAGE_TEXT@,
                SEND_MESSAGE_REPLY_TO_MESSAGE_ID@,
            ],
        ),
        words(GET_USER_INFO@, seq![GET_USER_INFO_USER_ID@, GET_USER_INFO_USERNAME@]),
        words(QUERY@, seq![QUERY_SQL@]),
        words(
            ADD_REACTION@,
            seq![
                ADD_REACTION_CHAT_ID@,
                ADD_REACTION_MESSAGE_ID@,
                ADD_REACTION_EMOJI@,
            ],
        ),
        words(DELETE_MESSAGE@, seq![DELETE_MESSAGE_CHAT_ID@, DELETE_MESSAGE_MESSAGE_ID@]),
        words(
            MUTE_USER@,
            seq![
                MUTE_USER_CHAT_ID@,
                MUTE_USER_USER_ID@,
                MUTE_USER_DURATION_MINUTES@,
            ],
        ),
        words(BAN_USER@, seq![BAN_USER_CHAT_ID@, BAN_USER_USER_ID@]),
        words(KICK_USER@, seq![KICK_USER_CHAT_ID@, KICK_USER_USER_ID@]),
        words(GET_CHAT_ADMINS@, seq![GET_CHAT_ADMINS_CHAT_ID@]),
        words(
            GET_MEMBERS@,
            seq![
                GET_MEMBERS_FILTER@,
                GET_MEMBERS_DAYS_INACTIVE@,
                GET_MEMBERS_LIMIT@,
            ],
        ),
        words(IMPORT_MEMBERS@, seq![IMPORT_MEMBERS_FILE_PATH@]),
        words(
            SEND_PHOTO@,
            seq![
                SEND_PHOTO_CHAT_ID@,
                SEND_PHOTO_PROMPT@,
                SEND_PHOTO_CAPTION@,
                SEND_PHOTO_REPLY_TO_MESSAGE_ID@,
            ],
        ),
        words(
            SEND_VOICE@,
            seq![
                SEND_VOICE_CHAT_ID@,
                SEND_VOICE_TEXT@,
                SEND_VOICE_VOICE@,
                SEND_VOICE_REPLY_TO_MESSAGE_ID@,
            ],
        ),
        words(CREATE_MEMORY@, seq![CREATE_MEMORY_PATH@, CREATE_MEMORY_CONTENT@]),
        words(READ_MEMORY@, seq![READ_MEMORY_PATH@]),
        words(
            EDIT_MEMORY@,
            seq![
                EDIT_MEMORY_PATH@,
                EDIT_MEMORY_OLD_STRING@,
                EDIT_MEMORY_NEW_STRING@,
            ],
        ),
        words(LIST_MEMORIES@, seq![LIST_MEMORIES_PATH@]),
        words(SEARCH_MEMORIES@, seq![SEARCH_MEMORIES_PATTERN@, SEARCH_MEMORIES_PATH@]),
        words(DELETE_MEMORY@, seq![DELETE_MEMORY_PATH@]),
        words(REPORT_BUG@, seq![REPORT_BUG_DESCRIPTION@, REPORT_BUG_SEVERITY@]),
        words(YOUTUBE_INFO@, seq![YOUTUBE_INFO_URL@]),
        words(NOOP@, Seq::empty()),
        words(
            SET_REMINDER@,
            seq![
                SET_REMINDER_CHAT_ID@,
                SET_REMINDER_MESSAGE@,
                SET_REMINDER_TRIGGER_AT@,
                SET_REMINDER_REPEAT_CRON@,
            ],
        ),
        words(LIST_REMINDERS@, seq![LIST_REMINDERS_CHAT_ID@]),
        words(CANCEL_REMINDER@, seq![CANCEL_REMINDER_REMINDER_ID@]),
        words(ADD_TRUSTED_USER@, seq![ADD_TRUSTED_USER_USER_ID@]),
        words(REMOVE_TRUSTED_USER@, seq![REMOVE_TRUSTED_USER_USER_ID@]),
        words(DONE@, Seq::empty()),
    ]
}

} // verus!
