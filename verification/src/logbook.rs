//! The log that is mirrored into a chat: which events go there, how they
//! are worded, and when buffered lines are sent.

use crate::message::byte_len;
use crate::text::{chars_of, concat, join_strings, joined, push_str, slice_of, string_of, texts};
use vstd::prelude::*;
use vstd::string::StringSliceAdditionalSpecFns;

verus! {

/// The severity of a log event, most severe first.
#[derive(Clone, Copy, Debug, PartialEq, Eq, Structural)]
pub enum Level {
    Error,
    Warn,
    Info,
    Debug,
    Trace,
}

/// A line for the chat, with its priority.
#[derive(Clone, Debug)]
pub enum LogMessage {
    /// Sent at once.
    Urgent(String),
    /// Buffered and sent with others.
    Info(String),
}

/// Most bytes of a text that is sent whole.
pub const MAX_LOG_TEXT: usize = 4000;

/// The number of buffered lines at which the buffer is sent early.
pub const MAX_BUFFERED: usize = 50;

/// Words an event for the chat. Errors and warnings are urgent and marked;
/// events below the level of information are not mirrored.
pub fn log_message(level: Level, message: String) -> (r: Option<LogMessage>)
    ensures
        match level {
            Level::Error => r matches Some(LogMessage::Urgent(t)) && t@ == "❌ "@ + message@,
            Level::Warn => r matches Some(LogMessage::Urgent(t)) && t@ == "⚠️ "@ + message@,
            Level::Info => r == Some(LogMessage::Info(message)),
            _ => r is None,
        },
{
    match level {
        Level::Error => Some(LogMessage::Urgent(concat("❌ ", message.as_str()))),
        Level::Warn => Some(LogMessage::Urgent(concat("⚠️ ", message.as_str()))),
        Level::Info => Some(LogMessage::Info(message)),
        _ => None,
    }
}

/// The first `n` characters of `text`, or all of it if it has no more.
pub open spec fn head(text: Seq<char>, n: int) -> Seq<char> {
    if text.len() > n {
        text.take(n)
    } else {
        text
    }
}

/// `text` as it is sent: a text of more than [`MAX_LOG_TEXT`] bytes is cut
/// after as many characters and marked with an ellipsis.
pub open spec fn clipped(text: Seq<char>) -> Seq<char> {
    if byte_len(text) > MAX_LOG_TEXT {
        head(text, MAX_LOG_TEXT as int) + "..."@
    } else {
        text
    }
}

/// Cuts a text to the length that one message of the chat holds.
pub fn clip(text: &str) -> (out: String)
    ensures
        out@ == clipped(text@),
{
    if text.as_bytes().len() > MAX_LOG_TEXT {
        let chars = chars_of(text);
        let mut buf: Vec<char> = if chars.len() > MAX_LOG_TEXT {
            slice_of(&chars, 0, MAX_LOG_TEXT)
        } else {
            chars
        };
        push_str(&mut buf, "...");
        string_of(&buf)
    } else {
        text.to_owned()
    }
}

/// The informational lines that wait to be sent.
pub struct LogBuffer {
    lines: Vec<String>,
}

impl View for LogBuffer {
    type V = Seq<Seq<char>>;

    closed spec fn view(&self) -> Seq<Seq<char>> {
        texts(self.lines@)
    }
}

impl LogBuffer {
    /// An empty buffer.
    pub fn new() -> (buffer: Self)
        ensures
            buffer@.len() == 0,
    {
        Self { lines: Vec::new() }
    }

    /// Sends the buffer: the lines joined by line feeds, cut to the length
    /// that one message holds. An empty buffer sends nothing.
    pub fn flush(&mut self) -> (sent: Option<String>)
        ensures
            final(self)@.len() == 0,
            match sent {
                Some(text) => old(self)@.len() > 0 && text@ == clipped(joined(old(self)@, "\n"@)),
                None => old(self)@.len() == 0,
            },
    {
        if self.lines.len() == 0 {
            return None;
        }
        let combined = string_of(&join_strings(&self.lines, "\n"));
        self.lines.clear();
        Some(clip(combined.as_str()))
    }

    /// Adds a line. Once [`MAX_BUFFERED`] lines wait, the buffer is sent.
    pub fn push(&mut self, line: String) -> (sent: Option<String>)
        ensures
            match sent {
                Some(text) => old(self)@.len() + 1 >= MAX_BUFFERED && final(self)@.len() == 0
                    && text@ == clipped(joined(old(self)@.push(line@), "\n"@)),
                None => old(self)@.len() + 1 < MAX_BUFFERED && final(self)@ == old(self)@.push(
                    line@,
                ),
            },
    {
        self.lines.push(line);
        assert(texts(self.lines@) =~= old(self)@.push(line@));
        if self.lines.len() >= MAX_BUFFERED {
            self.flush()
        } else {
            None
        }
    }
}

/// The text of an event after one more of its fields was recorded. The
/// field `message` is the text; other fields are listed by name.
pub open spec fn recorded(message: Seq<char>, field: Seq<char>, value: Seq<char>) -> Seq<char> {
    if field == "message"@ {
        value
    } else if message.len() == 0 {
        field + " = "@ + value
    } else {
        message + ", "@ + field + " = "@ + value
    }
}

/// Records one field of an event in the event's text.
pub fn record_field(message: &mut String, field: &str, value: &str)
    ensures
        final(message)@ == recorded(old(message)@, field@, value@),
{
    let mut buf: Vec<char> = Vec::new();
    if crate::text::str_eq(field, "message") {
        push_str(&mut buf, value);
    } else if message.as_str().is_empty() {
        push_str(&mut buf, field);
        push_str(&mut buf, " = ");
        push_str(&mut buf, value);
    } else {
        push_str(&mut buf, message.as_str());
        push_str(&mut buf, ", ");
        push_str(&mut buf, field);
        push_str(&mut buf, " = ");
        push_str(&mut buf, value);
    }
    *message = string_of(&buf);
}

} // verus!
