//! What the bot makes of attachments: voice messages and documents.
//!
//! Transcribing speech and downloading files is left to the caller; this
//! module decides what text stands for an attachment in the message that
//! the reasoner sees.

use crate::message::{byte_len, DocumentContent};
use crate::text::{
    chars_of, concat, ends_with, has_suffix, lowercased, push_str, string_of, to_lower, trim,
    trimmed,
};
use vstd::prelude::*;
use vstd::string::StringSliceAdditionalSpecFns;
use vstd::utf8::{decode_utf8, encode_utf8, is_char_boundary};

verus! {

/// `s` cut after `max` bytes and marked with an ellipsis, or whole if it
/// is no longer than that.
pub open spec fn shortened(s: Seq<char>, max: int) -> Seq<char> {
    if byte_len(s) <= max {
        s
    } else {
        decode_utf8(encode_utf8(s).subrange(0, max)) + "..."@
    }
}

/// Shortens a transcription for a log line. A text that is longer than
/// `max` bytes must have a character boundary at `max`.
pub fn truncate(s: &str, max: usize) -> (out: String)
    requires
        byte_len(s@) <= max || is_char_boundary(encode_utf8(s@), max as int),
    ensures
        out@ == shortened(s@, max as int),
{
    broadcast use vstd::utf8::encode_utf8_decode_utf8;

    if s.as_bytes().len() <= max {
        s.to_owned()
    } else {
        let (head, _) = s.split_at(max);
        assert(head@ == decode_utf8(encode_utf8(head@)));
        concat(head, "...")
    }
}

/// The text of a transcription made of `segments`: the segments with a
/// space after each, without white space at either end.
pub open spec fn transcript(segments: Seq<String>) -> Seq<char> {
    trimmed(spaced(segments))
}

/// The segments with a space after each.
pub open spec fn spaced(segments: Seq<String>) -> Seq<char>
    decreases segments.len(),
{
    if segments.len() == 0 {
        Seq::empty()
    } else {
        spaced(segments.drop_last()) + segments.last()@ + " "@
    }
}

/// Joins the segments of a transcription.
pub fn join_segments(segments: &Vec<String>) -> (out: String)
    ensures
        out@ == transcript(segments@),
{
    let mut buf: Vec<char> = Vec::new();
    let mut i: usize = 0;
    while i < segments.len()
        invariant
            i <= segments@.len(),
            buf@ == spaced(segments@.take(i as int)),
        decreases segments@.len() - i,
    {
        let ghost before = buf@;
        push_str(&mut buf, segments[i].as_str());
        push_str(&mut buf, " ");
        proof {
            assert(segments@.take(i + 1).drop_last() =~= segments@.take(i as int));
            assert(segments@.take(i + 1).last() == segments@[i as int]);
            assert(buf@ =~= before + segments@[i as int]@ + " "@);
        }
        i += 1;
    }
    proof {
        assert(segments@.take(segments@.len() as int) =~= segments@);
    }
    string_of(&trim(&buf))
}

/// What became of a voice message.
#[derive(Clone, Debug)]
pub enum VoiceOutcome {
    /// No transcriber is configured.
    Unavailable,
    /// The audio could not be fetched; the text says why.
    DownloadFailed(String),
    /// The transcriber failed; the text says why.
    Failed(String),
    Transcribed(String),
}

/// The text that stands for a voice message.
pub open spec fn voice_text(outcome: VoiceOutcome) -> Seq<char> {
    match outcome {
        VoiceOutcome::Unavailable =>
            "[Voice message - transcription not available (Whisper not configured)]"@,
        VoiceOutcome::DownloadFailed(why) => "[Voice message - download failed: "@ + why@ + "]"@,
        VoiceOutcome::Failed(why) => "[Voice message - transcription failed: "@ + why@ + "]"@,
        VoiceOutcome::Transcribed(text) => text@,
    }
}

fn bracketed(before: &str, why: &str) -> (out: String)
    ensures
        out@ == before@ + why@ + "]"@,
{
    let mut buf: Vec<char> = Vec::new();
    push_str(&mut buf, before);
    push_str(&mut buf, why);
    push_str(&mut buf, "]");
    string_of(&buf)
}

/// The transcription that a message carries for its voice attachment:
/// the transcribed text, or a note on why there is none.
pub fn voice_transcription(outcome: VoiceOutcome) -> (out: String)
    ensures
        out@ == voice_text(outcome),
{
    match outcome {
        VoiceOutcome::Unavailable =>
            "[Voice message - transcription not available (Whisper not configured)]".to_owned(),
        VoiceOutcome::DownloadFailed(why) => bracketed(
            "[Voice message - download failed: ",
            why.as_str(),
        ),
        VoiceOutcome::Failed(why) => bracketed(
            "[Voice message - transcription failed: ",
            why.as_str(),
        ),
        VoiceOutcome::Transcribed(text) => text,
    }
}

/// Whether a file of this name is taken for a word-processing document.
pub open spec fn is_docx_name(filename: Seq<char>) -> bool {
    has_suffix(lowercased(filename), ".docx"@)
}

/// Tests whether an attachment is a document whose text is extracted.
pub fn is_docx(filename: &str) -> (r: bool)
    ensures
        r == is_docx_name(filename@),
{
    ends_with(&to_lower(&chars_of(filename)), &chars_of(".docx"))
}

/// What became of a document attachment.
#[derive(Clone, Debug)]
pub enum DocumentOutcome {
    /// The file could not be fetched; the text says why.
    DownloadFailed(String),
    /// The text could not be extracted; the text says why.
    ExtractionFailed(String),
    Extracted(String),
}

/// The text that stands for a document.
pub open spec fn document_text(outcome: DocumentOutcome) -> Seq<char> {
    match outcome {
        DocumentOutcome::DownloadFailed(why) => "[Document download failed: "@ + why@ + "]"@,
        DocumentOutcome::ExtractionFailed(why) => "[Document extraction failed: "@ + why@ + "]"@,
        DocumentOutcome::Extracted(text) => text@,
    }
}

/// The document that a message carries for an attachment: its name with
/// the extracted text, or with a note on why there is none.
pub fn document_content(filename: &str, outcome: DocumentOutcome) -> (doc: DocumentContent)
    ensures
        doc.filename@ == filename@,
        doc.text@ == document_text(outcome),
{
    let text = match outcome {
        DocumentOutcome::DownloadFailed(why) => bracketed(
            "[Document download failed: ",
            why.as_str(),
        ),
        DocumentOutcome::ExtractionFailed(why) => bracketed(
            "[Document extraction failed: ",
            why.as_str(),
        ),
        DocumentOutcome::Extracted(text) => text,
    };
    DocumentContent { filename: filename.to_owned(), text }
}

} // verus!
