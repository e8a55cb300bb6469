//! Plain-text extraction from word-processing documents.
//!
//! Such a document is a ZIP archive whose entry `word/document.xml` holds the
//! body: paragraphs are `w:p` elements and their text sits in `w:t` elements.

use crate::message::{byte_len, truncate_safe, truncated};
use crate::text::{
    chars_of, concat, find_char, index_of, is_text, push_all, push_str, slice_of, string_of,
    text_result, trim, trimmed,
};
use vstd::prelude::*;

verus! {

/// What the scanner remembers between two steps.
pub struct ScanState {
    pub in_paragraph: bool,
    pub in_text: bool,
    /// Text of the paragraph being read.
    pub paragraph: Seq<char>,
    /// Text of the paragraphs that are complete.
    pub result: Seq<char>,
}

/// A tag as the scanner reads it.
pub struct Tag {
    pub closing: bool,
    pub name: Seq<char>,
    /// Whether a `/` stands between the name and the closing `>`.
    pub self_closing: bool,
    /// Where scanning goes on.
    pub next: int,
}

/// Whether a tag's name ends before `c`.
pub open spec fn is_name_stop(c: char) -> bool {
    c == '>' || c == ' ' || c == '/'
}

/// The first position at or after `p` that ends a tag's name, or the length of `s`.
pub open spec fn name_end(s: Seq<char>, p: int) -> int
    decreases s.len() - p,
{
    if p < 0 || p >= s.len() {
        s.len() as int
    } else if is_name_stop(s[p]) {
        p
    } else {
        name_end(s, p + 1)
    }
}

/// The tag whose `<` stands just before position `p`.
pub open spec fn lex_tag(s: Seq<char>, p: int) -> Tag {
    let closing = p < s.len() && s[p] == '/';
    let start = if closing {
        p + 1
    } else {
        p
    };
    let stop = name_end(s, start);
    let gt = find_char(s, stop, '>');
    Tag {
        closing,
        name: s.subrange(start, stop),
        self_closing: find_char(s, stop, '/') < gt,
        next: if gt < s.len() {
            gt + 1
        } else {
            s.len() as int
        },
    }
}

/// The state after the current paragraph, if it holds text, has joined the result.
pub open spec fn flushed(st: ScanState) -> Seq<char> {
    if st.in_paragraph && trimmed(st.paragraph).len() > 0 {
        if st.result.len() > 0 {
            st.result.push('\n') + trimmed(st.paragraph)
        } else {
            trimmed(st.paragraph)
        }
    } else {
        st.result
    }
}

/// The state after a tag.
pub open spec fn after_tag(st: ScanState, tag: Tag) -> ScanState {
    if tag.closing {
        if tag.name == "w:p"@ {
            ScanState {
                in_paragraph: false,
                in_text: st.in_text,
                paragraph: Seq::empty(),
                result: flushed(st),
            }
        } else if tag.name == "w:t"@ {
            ScanState { in_text: false, ..st }
        } else {
            st
        }
    } else if tag.name == "w:p"@ {
        ScanState { in_paragraph: true, paragraph: Seq::empty(), ..st }
    } else if tag.name == "w:t"@ {
        if tag.self_closing {
            st
        } else {
            ScanState { in_text: true, ..st }
        }
    } else if tag.name == "w:br"@ {
        if st.in_paragraph {
            ScanState { paragraph: st.paragraph.push('\n'), ..st }
        } else {
            st
        }
    } else if tag.name == "w:tab"@ {
        if st.in_paragraph {
            ScanState { paragraph: st.paragraph.push('\t'), ..st }
        } else {
            st
        }
    } else {
        st
    }
}

/// The text that an entity reference with this name stands for. An unknown
/// reference stands for itself.
pub open spec fn decoded_entity(name: Seq<char>) -> Seq<char> {
    if name == "lt"@ {
        seq!['<']
    } else if name == "gt"@ {
        seq!['>']
    } else if name == "amp"@ {
        seq!['&']
    } else if name == "quot"@ {
        seq!['"']
    } else if name == "apos"@ {
        seq!['\'']
    } else {
        seq!['&'] + name + seq![';']
    }
}

/// The state at the end of `s` when scanning goes on at `pos` in state `st`.
pub open spec fn scan(s: Seq<char>, pos: int, st: ScanState) -> ScanState
    decreases s.len() - pos,
{
    if pos < 0 || pos >= s.len() {
        st
    } else if s[pos] == '<' {
        let tag = lex_tag(s, pos + 1);
        if tag.next > pos {
            scan(s, tag.next, after_tag(st, tag))
        } else {
            st
        }
    } else if st.in_text && st.in_paragraph {
        if s[pos] == '&' {
            let semi = find_char(s, pos + 1, ';');
            let next = if semi < s.len() {
                semi + 1
            } else {
                s.len() as int
            };
            if next > pos {
                scan(
                    s,
                    next,
                    ScanState {
                        paragraph: st.paragraph + decoded_entity(s.subrange(pos + 1, semi)),
                        ..st
                    },
                )
            } else {
                st
            }
        } else {
            scan(s, pos + 1, ScanState { paragraph: st.paragraph.push(s[pos]), ..st })
        }
    } else {
        scan(s, pos + 1, st)
    }
}

/// The text of the paragraphs of the document body `xml`, one per line.
/// Paragraphs without text are left out.
pub open spec fn extracted_text(xml: Seq<char>) -> Seq<char> {
    flushed(
        scan(
            xml,
            0,
            ScanState {
                in_paragraph: false,
                in_text: false,
                paragraph: Seq::empty(),
                result: Seq::empty(),
            },
        ),
    )
}

fn end_of_name(s: &Vec<char>, from: usize) -> (at: usize)
    requires
        from <= s.len(),
    ensures
        at == name_end(s@, from as int),
        from <= at <= s.len(),
{
    let mut i: usize = from;
    while i < s.len() && !(s[i] == '>' || s[i] == ' ' || s[i] == '/')
        invariant
            from <= i <= s.len(),
            name_end(s@, i as int) == name_end(s@, from as int),
        decreases s.len() - i,
    {
        i += 1;
    }
    i
}

struct ReadTag {
    closing: bool,
    name: Vec<char>,
    self_closing: bool,
    next: usize,
}

fn read_tag(s: &Vec<char>, p: usize) -> (tag: ReadTag)
    requires
        p <= s.len(),
    ensures
        lex_tag(s@, p as int) == (Tag {
            closing: tag.closing,
            name: tag.name@,
            self_closing: tag.self_closing,
            next: tag.next as int,
        }),
        p <= tag.next <= s.len(),
{
    let closing = p < s.len() && s[p] == '/';
    let start = if closing {
        p + 1
    } else {
        p
    };
    let stop = end_of_name(s, start);
    let gt = index_of(s, stop, '>');
    let slash = index_of(s, stop, '/');
    let name = slice_of(s, start, stop);
    let next = if gt < s.len() {
        gt + 1
    } else {
        s.len()
    };
    ReadTag { closing, name, self_closing: slash < gt, next }
}

fn flush(in_paragraph: bool, paragraph: &Vec<char>, result: &mut Vec<char>)
    ensures
        final(result)@ == flushed(
            ScanState {
                in_paragraph,
                in_text: arbitrary(),
                paragraph: paragraph@,
                result: old(result)@,
            },
        ),
{
    if in_paragraph {
        let text = trim(paragraph);
        if text.len() > 0 {
            if result.len() > 0 {
                result.push('\n');
            }
            push_all(result, &text);
        }
    }
}

fn push_entity(paragraph: &mut Vec<char>, name: &Vec<char>)
    ensures
        final(paragraph)@ == old(paragraph)@ + decoded_entity(name@),
{
    if is_text(name, "lt") {
        paragraph.push('<');
        assert(paragraph@ =~= old(paragraph)@ + seq!['<']);
    } else if is_text(name, "gt") {
        paragraph.push('>');
        assert(paragraph@ =~= old(paragraph)@ + seq!['>']);
    } else if is_text(name, "amp") {
        paragraph.push('&');
        assert(paragraph@ =~= old(paragraph)@ + seq!['&']);
    } else if is_text(name, "quot") {
        paragraph.push('"');
        assert(paragraph@ =~= old(paragraph)@ + seq!['"']);
    } else if is_text(name, "apos") {
        paragraph.push('\'');
        assert(paragraph@ =~= old(paragraph)@ + seq!['\'']);
    } else {
        paragraph.push('&');
        push_all(paragraph, name);
        paragraph.push(';');
        assert(paragraph@ =~= old(paragraph)@ + (seq!['&'] + name@ + seq![';']));
    }
}

/// Extracts the text of a document body: the content of the `w:t` elements,
/// paragraph by paragraph, with entity references decoded, line breaks and
/// tabs kept, and one line per paragraph that holds text.
pub fn extract_text_from_xml(xml: &str) -> (out: String)
    ensures
        out@ == extracted_text(xml@),
{
    let s = chars_of(xml);
    let mut in_paragraph = false;
    let mut in_text = false;
    let mut paragraph: Vec<char> = Vec::new();
    let mut result: Vec<char> = Vec::new();
    let mut pos: usize = 0;
    let ghost start = ScanState {
        in_paragraph: false,
        in_text: false,
        paragraph: Seq::empty(),
        result: Seq::empty(),
    };
    while pos < s.len()
        invariant
            pos <= s.len(),
            s@ == xml@,
            scan(
                s@,
                pos as int,
                ScanState { in_paragraph, in_text, paragraph: paragraph@, result: result@ },
            ) == scan(s@, 0, start),
        decreases s.len() - pos,
    {
        let c = s[pos];
        if c == '<' {
            let tag = read_tag(&s, pos + 1);
            let ghost st = ScanState {
                in_paragraph,
                in_text,
                paragraph: paragraph@,
                result: result@,
            };
            if tag.closing {
                if is_text(&tag.name, "w:p") {
                    flush(in_paragraph, &paragraph, &mut result);
                    in_paragraph = false;
                    paragraph.clear();
                } else if is_text(&tag.name, "w:t") {
                    in_text = false;
                }
            } else if is_text(&tag.name, "w:p") {
                in_paragraph = true;
                paragraph.clear();
            } else if is_text(&tag.name, "w:t") {
                if !tag.self_closing {
                    in_text = true;
                }
            } else if is_text(&tag.name, "w:br") {
                if in_paragraph {
                    paragraph.push('\n');
                }
            } else if is_text(&tag.name, "w:tab") {
                if in_paragraph {
                    paragraph.push('\t');
                }
            }
            proof {
                assert(ScanState {
                    in_paragraph,
                    in_text,
                    paragraph: paragraph@,
                    result: result@,
                } == after_tag(st, lex_tag(s@, pos + 1)));
            }
            pos = tag.next;
        } else if in_text && in_paragraph {
            if c == '&' {
                let semi = index_of(&s, pos + 1, ';');
                let name = slice_of(&s, pos + 1, semi);
                push_entity(&mut paragraph, &name);
                pos = if semi < s.len() {
                    semi + 1
                } else {
                    s.len()
                };
            } else {
                paragraph.push(c);
                pos += 1;
            }
        } else {
            pos += 1;
        }
    }
    flush(in_paragraph, &paragraph, &mut result);
    string_of(&result)
}

/// `text` as it is shown in a log line: whole when it has at most
/// `max_bytes` bytes, else cut at a character boundary and marked with an ellipsis.
pub open spec fn previewed(text: Seq<char>, max_bytes: int) -> Seq<char> {
    if byte_len(text) <= max_bytes {
        text
    } else {
        truncated(text, max_bytes) + "..."@
    }
}

/// A preview of document content: its first `max_chars` bytes, never splitting a character.
pub fn preview(text: &str, max_chars: usize) -> (out: String)
    ensures
        out@ == previewed(text@, max_chars as int),
{
    if text.as_bytes().len() <= max_chars {
        text.to_owned()
    } else {
        let head = truncate_safe(text, max_chars);
        let mut buf: Vec<char> = Vec::new();
        push_str(&mut buf, head);
        push_str(&mut buf, "...");
        string_of(&buf)
    }
}

/// Why an entry of an archive could not be read.
#[derive(Debug)]
pub enum EntryFailure {
    /// The bytes are no ZIP archive; the text says why.
    NotArchive(String),
    /// The archive has no entry of that name.
    Missing,
    /// The entry could not be read as text; the text says why.
    Unreadable(String),
}

/// An [`EntryFailure`] with its texts as sequences.
pub enum EntryFailureView {
    NotArchive(Seq<char>),
    Missing,
    Unreadable(Seq<char>),
}

impl View for EntryFailure {
    type V = EntryFailureView;

    open spec fn view(&self) -> EntryFailureView {
        match self {
            EntryFailure::NotArchive(why) => EntryFailureView::NotArchive(why@),
            EntryFailure::Missing => EntryFailureView::Missing,
            EntryFailure::Unreadable(why) => EntryFailureView::Unreadable(why@),
        }
    }
}

/// What reading the entry `name` of the ZIP archive `data` as text gives.
pub uninterp spec fn archive_entry(data: Seq<u8>, name: Seq<char>) -> Result<
    Seq<char>,
    EntryFailureView,
>;

/// The view of what [`read_entry`] returns.
pub open spec fn entry_view(r: Result<String, EntryFailure>) -> Result<Seq<char>, EntryFailureView> {
    match r {
        Ok(text) => Ok(text@),
        Err(e) => Err(e@),
    }
}

/// Reads one entry of a ZIP archive as text.
///
/// Trusted: opens the archive with `zip::ZipArchive::new` on a cursor over
/// `data`, looks the entry up with `ZipArchive::by_name` and reads it with
/// `Read::read_to_string`. The outcome depends on the bytes and the name
/// alone and is named by [`archive_entry`].
#[verifier::external_body]
fn read_entry(data: &[u8], name: &str) -> (r: Result<String, EntryFailure>)
    ensures
        entry_view(r) == archive_entry(data@, name@),
{
    let mut archive = match zip::ZipArchive::new(std::io::Cursor::new(data)) {
        Ok(archive) => archive,
        Err(e) => return Err(EntryFailure::NotArchive(e.to_string())),
    };
    let mut file = match archive.by_name(name) {
        Ok(file) => file,
        Err(_) => return Err(EntryFailure::Missing),
    };
    let mut text = String::new();
    match std::io::Read::read_to_string(&mut file, &mut text) {
        Ok(_) => Ok(text),
        Err(e) => Err(EntryFailure::Unreadable(e.to_string())),
    }
}

/// What extraction gives for a document whose body entry read as `entry`.
pub open spec fn text_of(entry: Result<Seq<char>, EntryFailureView>) -> Result<
    Seq<char>,
    Seq<char>,
> {
    match entry {
        Ok(xml) => if trimmed(extracted_text(xml)).len() == 0 {
            Err("DOCX appears to be empty or contains no text"@)
        } else {
            Ok(extracted_text(xml))
        },
        Err(EntryFailureView::NotArchive(why)) => Err("Invalid DOCX (not a valid ZIP): "@ + why),
        Err(EntryFailureView::Missing) => Err("Invalid DOCX: missing word/document.xml"@),
        Err(EntryFailureView::Unreadable(why)) => Err("Failed to read document.xml: "@ + why),
    }
}

/// Turns the body entry of a document, as read from its archive, into the
/// document's text or the reason why there is none.
pub fn text_of_entry(entry: Result<String, EntryFailure>) -> (r: Result<String, String>)
    ensures
        text_result(r) == text_of(entry_view(entry)),
{
    match entry {
        Ok(xml) => {
            let text = extract_text_from_xml(xml.as_str());
            let body = trim(&chars_of(text.as_str()));
            if body.len() == 0 {
                Err("DOCX appears to be empty or contains no text".to_owned())
            } else {
                Ok(text)
            }
        },
        Err(EntryFailure::NotArchive(why)) => Err(
            concat("Invalid DOCX (not a valid ZIP): ", why.as_str()),
        ),
        Err(EntryFailure::Missing) => Err("Invalid DOCX: missing word/document.xml".to_owned()),
        Err(EntryFailure::Unreadable(why)) => Err(
            concat("Failed to read document.xml: ", why.as_str()),
        ),
    }
}

/// Extracts the plain text of a document from the bytes of its file.
pub fn extract_text(data: &[u8]) -> (r: Result<String, String>)
    ensures
        text_result(r) == text_of(archive_entry(data@, "word/document.xml"@)),
{
    text_of_entry(read_entry(data, "word/document.xml"))
}

} // verus!
