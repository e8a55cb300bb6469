//! Chat messages and their rendering for the reasoner.
//!
//! A message is rendered as one XML element. Everything that comes from a
//! user is entity-escaped, so that no message content can close the element
//! or forge another one.

use crate::text::{decimal, is_sub_at, nat_digits, push_all, push_decimal, push_str, string_of};
use vstd::prelude::*;
use vstd::string::StringSliceAdditionalSpecFns;
use vstd::utf8::{decode_utf8, encode_utf8, is_char_boundary};

verus! {

/// Content quoted when replying to another message.
#[derive(Clone, Debug)]
pub struct ReplyTo {
    pub message_id: i64,
    pub username: String,
    pub text: String,
}

/// A document attached to a message: its file name and its extracted plain text.
#[derive(Clone, Debug)]
pub struct DocumentContent {
    pub filename: String,
    pub text: String,
}

/// A chat message with all metadata.
#[derive(Clone, Debug)]
pub struct ChatMessage {
    pub message_id: i64,
    /// Negative for a group, positive for a private chat, 0 for the system.
    pub chat_id: i64,
    /// 0 for the bot itself or the system.
    pub user_id: i64,
    pub username: String,
    pub timestamp: String,
    pub text: String,
    pub reply_to: Option<ReplyTo>,
    /// Image bytes and media type, held in memory only.
    pub image: Option<(Vec<u8>, String)>,
    pub voice_transcription: Option<String>,
    pub documents: Vec<DocumentContent>,
}

/// A [`ReplyTo`] with its texts as sequences.
pub struct ReplyToView {
    pub message_id: i64,
    pub username: Seq<char>,
    pub text: Seq<char>,
}

/// A [`DocumentContent`] with its texts as sequences.
pub struct DocumentView {
    pub filename: Seq<char>,
    pub text: Seq<char>,
}

/// A [`ChatMessage`] with its texts and bytes as sequences.
pub struct ChatMessageView {
    pub message_id: i64,
    pub chat_id: i64,
    pub user_id: i64,
    pub username: Seq<char>,
    pub timestamp: Seq<char>,
    pub text: Seq<char>,
    pub reply_to: Option<ReplyToView>,
    pub image: Option<(Seq<u8>, Seq<char>)>,
    pub voice_transcription: Option<Seq<char>>,
    pub documents: Seq<DocumentView>,
}

impl View for ReplyTo {
    type V = ReplyToView;

    open spec fn view(&self) -> ReplyToView {
        ReplyToView { message_id: self.message_id, username: self.username@, text: self.text@ }
    }
}

impl View for DocumentContent {
    type V = DocumentView;

    open spec fn view(&self) -> DocumentView {
        DocumentView { filename: self.filename@, text: self.text@ }
    }
}

impl View for ChatMessage {
    type V = ChatMessageView;

    open spec fn view(&self) -> ChatMessageView {
        ChatMessageView {
            message_id: self.message_id,
            chat_id: self.chat_id,
            user_id: self.user_id,
            username: self.username@,
            timestamp: self.timestamp@,
            text: self.text@,
            reply_to: match self.reply_to {
                Some(r) => Some(r@),
                None => None,
            },
            image: match self.image {
                Some((data, media_type)) => Some((data@, media_type@)),
                None => None,
            },
            voice_transcription: match self.voice_transcription {
                Some(t) => Some(t@),
                None => None,
            },
            documents: self.documents@.map_values(|d: DocumentContent| d@),
        }
    }
}

/// A copy of the bytes `data`.
pub fn copy_bytes(data: &Vec<u8>) -> (out: Vec<u8>)
    ensures
        out@ == data@,
{
    let mut out: Vec<u8> = Vec::new();
    let mut i: usize = 0;
    while i < data.len()
        invariant
            i <= data@.len(),
            out@ == data@.take(i as int),
        decreases data@.len() - i,
    {
        out.push(data[i]);
        assert(out@ =~= data@.take(i + 1));
        i += 1;
    }
    assert(data@.take(data@.len() as int) =~= data@);
    out
}

/// The most bytes of a quoted reply that are rendered.
pub const MAX_QUOTE_LENGTH: usize = 200;

/// The replacement of one character in element content.
pub open spec fn escape_char(c: char) -> Seq<char> {
    if c == '<' {
        seq!['&', 'l', 't', ';']
    } else if c == '>' {
        seq!['&', 'g', 't', ';']
    } else if c == '&' {
        seq!['&', 'a', 'm', 'p', ';']
    } else {
        seq![c]
    }
}

/// The replacement of one character in an attribute value.
pub open spec fn escape_attr_char(c: char) -> Seq<char> {
    if c == '"' {
        seq!['&', 'q', 'u', 'o', 't', ';']
    } else {
        escape_char(c)
    }
}

/// `s` escaped for element content.
pub open spec fn xml_escaped(s: Seq<char>) -> Seq<char>
    decreases s.len(),
{
    if s.len() == 0 {
        Seq::empty()
    } else {
        xml_escaped(s.drop_last()) + escape_char(s.last())
    }
}

/// `s` escaped for an attribute value.
pub open spec fn xml_escaped_attr(s: Seq<char>) -> Seq<char>
    decreases s.len(),
{
    if s.len() == 0 {
        Seq::empty()
    } else {
        xml_escaped_attr(s.drop_last()) + escape_attr_char(s.last())
    }
}

fn push_escaped_char(out: &mut Vec<char>, c: char, attr: bool)
    ensures
        final(out)@ == old(out)@ + if attr {
            escape_attr_char(c)
        } else {
            escape_char(c)
        },
{
    if c == '<' {
        out.push('&');
        out.push('l');
        out.push('t');
        out.push(';');
        assert(out@ =~= old(out)@ + seq!['&', 'l', 't', ';']);
    } else if c == '>' {
        out.push('&');
        out.push('g');
        out.push('t');
        out.push(';');
        assert(out@ =~= old(out)@ + seq!['&', 'g', 't', ';']);
    } else if c == '&' {
        out.push('&');
        out.push('a');
        out.push('m');
        out.push('p');
        out.push(';');
        assert(out@ =~= old(out)@ + seq!['&', 'a', 'm', 'p', ';']);
    } else if attr && c == '"' {
        out.push('&');
        out.push('q');
        out.push('u');
        out.push('o');
        out.push('t');
        out.push(';');
        assert(out@ =~= old(out)@ + seq!['&', 'q', 'u', 'o', 't', ';']);
    } else {
        out.push(c);
        assert(out@ =~= old(out)@ + seq![c]);
    }
}

/// Appends `s`, escaped for element content, to `out`.
pub fn push_escaped(out: &mut Vec<char>, s: &str)
    ensures
        final(out)@ == old(out)@ + xml_escaped(s@),
{
    broadcast use vstd::string::group_string_axioms;

    let ghost start = out@;
    for c in it: s.chars()
        invariant
            it.seq() == s@,
            out@ == start + xml_escaped(s@.take(it.index() as int)),
    {
        proof {
            let k = it.index() as int;
            assert(s@.take(k + 1).drop_last() =~= s@.take(k));
        }
        push_escaped_char(out, c, false);
    }
    proof {
        assert(s@.take(s@.len() as int) =~= s@);
    }
}

/// Appends `s`, escaped for an attribute value, to `out`.
pub fn push_escaped_attr(out: &mut Vec<char>, s: &str)
    ensures
        final(out)@ == old(out)@ + xml_escaped_attr(s@),
{
    broadcast use vstd::string::group_string_axioms;

    let ghost start = out@;
    for c in it: s.chars()
        invariant
            it.seq() == s@,
            out@ == start + xml_escaped_attr(s@.take(it.index() as int)),
    {
        proof {
            let k = it.index() as int;
            assert(s@.take(k + 1).drop_last() =~= s@.take(k));
        }
        push_escaped_char(out, c, true);
    }
    proof {
        assert(s@.take(s@.len() as int) =~= s@);
    }
}

/// Escapes a string for inclusion in element content:
/// `<`, `>` and `&` become `&lt;`, `&gt;` and `&amp;`.
pub fn xml_escape(s: &str) -> (out: String)
    ensures
        out@ == xml_escaped(s@),
{
    let mut buf: Vec<char> = Vec::new();
    push_escaped(&mut buf, s);
    string_of(&buf)
}

/// Escapes a string for inclusion in an attribute value:
/// as [`xml_escape`], and `"` becomes `&quot;`.
pub fn xml_escape_attr(s: &str) -> (out: String)
    ensures
        out@ == xml_escaped_attr(s@),
{
    let mut buf: Vec<char> = Vec::new();
    push_escaped_attr(&mut buf, s);
    string_of(&buf)
}

/// The length of `s` in bytes of UTF-8.
pub open spec fn byte_len(s: Seq<char>) -> nat {
    encode_utf8(s).len()
}

/// The last character boundary of `bytes` at or before `max`.
pub open spec fn cut_point(bytes: Seq<u8>, max: int) -> int
    decreases max,
{
    if max <= 0 {
        0
    } else if is_char_boundary(bytes, max) {
        max
    } else {
        cut_point(bytes, max - 1)
    }
}

/// `s` cut down to at most `max` bytes, ending at a character boundary.
pub open spec fn truncated(s: Seq<char>, max: int) -> Seq<char> {
    if byte_len(s) <= max {
        s
    } else {
        decode_utf8(encode_utf8(s).subrange(0, cut_point(encode_utf8(s), max)))
    }
}

/// Truncates a string to at most `max_bytes` bytes without splitting a character.
pub fn truncate_safe(s: &str, max_bytes: usize) -> (out: &str)
    ensures
        out@ == truncated(s@, max_bytes as int),
{
    broadcast use {
        vstd::utf8::encode_utf8_decode_utf8,
        vstd::utf8::is_char_boundary_start_end_of_seq,
        vstd::utf8::encode_utf8_valid_utf8,
    };

    if s.as_bytes().len() <= max_bytes {
        return s;
    }
    let mut end: usize = max_bytes;
    while end > 0 && !s.is_char_boundary(end)
        invariant
            end <= max_bytes < s.spec_bytes().len(),
            cut_point(s.spec_bytes(), end as int) == cut_point(s.spec_bytes(), max_bytes as int),
        decreases end,
    {
        end -= 1;
    }
    assert(is_char_boundary(s.spec_bytes(), end as int));
    let (head, _) = s.split_at(end);
    assert(head@ == decode_utf8(encode_utf8(head@)));
    head
}

/// The quoted text of a reply as it is rendered: cut to [`MAX_QUOTE_LENGTH`]
/// bytes and marked with an ellipsis when it is longer.
pub open spec fn quoted(text: Seq<char>) -> Seq<char> {
    if byte_len(text) > MAX_QUOTE_LENGTH {
        truncated(text, MAX_QUOTE_LENGTH as int) + "..."@
    } else {
        text
    }
}

/// The rendering of the quoted message, if any.
pub open spec fn reply_part(reply: Option<ReplyTo>) -> Seq<char> {
    match reply {
        Some(r) => "<reply id=\""@ + decimal(r.message_id as int) + "\" from=\""@
            + xml_escaped_attr(r.username@) + "\">"@ + xml_escaped(quoted(r.text@))
            + "</reply>"@,
        None => Seq::empty(),
    }
}

/// The rendering of the voice transcription, if any.
pub open spec fn voice_part(voice: Option<String>) -> Seq<char> {
    match voice {
        Some(t) => "<voice-transcription note=\"speech-to-text, may contain errors\">"@
            + xml_escaped(t@) + "</voice-transcription>"@,
        None => Seq::empty(),
    }
}

/// The rendering of one attached document.
pub open spec fn document_part(doc: DocumentContent) -> Seq<char> {
    "<document name=\""@ + xml_escaped_attr(doc.filename@) + "\">"@ + xml_escaped(doc.text@)
        + "</document>"@
}

/// The rendering of the attached documents, in order.
pub open spec fn documents_part(docs: Seq<DocumentContent>) -> Seq<char>
    decreases docs.len(),
{
    if docs.len() == 0 {
        Seq::empty()
    } else {
        documents_part(docs.drop_last()) + document_part(docs.last())
    }
}

impl ChatMessage {
    /// A copy of the message: the same ids, texts and bytes.
    pub fn duplicate(&self) -> (copy: ChatMessage)
        ensures
            copy@ == self@,
    {
        let reply_to = match &self.reply_to {
            Some(r) => Some(
                ReplyTo {
                    message_id: r.message_id,
                    username: r.username.clone(),
                    text: r.text.clone(),
                },
            ),
            None => None,
        };
        let image = match &self.image {
            Some((data, media_type)) => Some((copy_bytes(data), media_type.clone())),
            None => None,
        };
        let voice_transcription = match &self.voice_transcription {
            Some(t) => Some(t.clone()),
            None => None,
        };
        let mut documents: Vec<DocumentContent> = Vec::new();
        let mut i: usize = 0;
        while i < self.documents.len()
            invariant
                i <= self.documents@.len(),
                documents@.len() == i,
                forall|k: int| 0 <= k < i ==> (#[trigger] documents@[k])@ == self.documents@[k]@,
            decreases self.documents@.len() - i,
        {
            let d = &self.documents[i];
            documents.push(DocumentContent { filename: d.filename.clone(), text: d.text.clone() });
            i += 1;
        }
        assert(documents@.map_values(|d: DocumentContent| d@) =~= self.documents@.map_values(
            |d: DocumentContent| d@,
        ));
        ChatMessage {
            message_id: self.message_id,
            chat_id: self.chat_id,
            user_id: self.user_id,
            username: self.username.clone(),
            timestamp: self.timestamp.clone(),
            text: self.text.clone(),
            reply_to,
            image,
            voice_transcription,
            documents,
        }
    }

    /// The opening tag with the message's attributes.
    pub open spec fn open_tag(self) -> Seq<char> {
        "<msg id=\""@ + decimal(self.message_id as int) + "\" chat=\""@ + decimal(
            self.chat_id as int,
        ) + "\" user=\""@ + decimal(self.user_id as int) + "\" name=\""@ + xml_escaped_attr(
            self.username@,
        ) + "\" time=\""@ + xml_escaped_attr(self.timestamp@) + "\">"@
    }

    /// The rendering of the message as one `msg` element.
    pub open spec fn formatted(self) -> Seq<char> {
        self.open_tag() + reply_part(self.reply_to) + xml_escaped(self.text@) + voice_part(
            self.voice_transcription,
        ) + documents_part(self.documents@) + "</msg>"@
    }

    /// Renders the message as XML for the reasoner, for example
    /// `<msg id="4521" chat="-12345" user="923847" name="Alice" time="10:31">hey everyone</msg>`.
    pub fn format(&self) -> (out: String)
        ensures
            out@ == self.formatted(),
    {
        let mut buf: Vec<char> = Vec::new();
        push_str(&mut buf, "<msg id=\"");
        push_decimal(&mut buf, self.message_id);
        push_str(&mut buf, "\" chat=\"");
        push_decimal(&mut buf, self.chat_id);
        push_str(&mut buf, "\" user=\"");
        push_decimal(&mut buf, self.user_id);
        push_str(&mut buf, "\" name=\"");
        push_escaped_attr(&mut buf, self.username.as_str());
        push_str(&mut buf, "\" time=\"");
        push_escaped_attr(&mut buf, self.timestamp.as_str());
        push_str(&mut buf, "\">");
        assert(buf@ =~= self.open_tag());
        let reply = render_reply(&self.reply_to);
        push_all(&mut buf, &reply);
        push_escaped(&mut buf, self.text.as_str());
        let voice = render_voice(&self.voice_transcription);
        push_all(&mut buf, &voice);
        let docs = render_documents(&self.documents);
        push_all(&mut buf, &docs);
        push_str(&mut buf, "</msg>");
        assert(buf@ =~= self.formatted());
        string_of(&buf)
    }
}

fn render_reply(reply: &Option<ReplyTo>) -> (out: Vec<char>)
    ensures
        out@ == reply_part(*reply),
{
    let mut buf: Vec<char> = Vec::new();
    match reply {
        Some(r) => {
            push_str(&mut buf, "<reply id=\"");
            push_decimal(&mut buf, r.message_id);
            push_str(&mut buf, "\" from=\"");
            push_escaped_attr(&mut buf, r.username.as_str());
            push_str(&mut buf, "\">");
            if r.text.as_str().as_bytes().len() > MAX_QUOTE_LENGTH {
                let head = truncate_safe(r.text.as_str(), MAX_QUOTE_LENGTH);
                let mut quote: Vec<char> = Vec::new();
                push_str(&mut quote, head);
                push_str(&mut quote, "...");
                let quote_text = string_of(&quote);
                assert(quote_text@ =~= quoted(r.text@));
                push_escaped(&mut buf, quote_text.as_str());
            } else {
                push_escaped(&mut buf, r.text.as_str());
            }
            push_str(&mut buf, "</reply>");
            assert(buf@ =~= reply_part(*reply));
        },
        None => {},
    }
    buf
}

fn render_voice(voice: &Option<String>) -> (out: Vec<char>)
    ensures
        out@ == voice_part(*voice),
{
    let mut buf: Vec<char> = Vec::new();
    match voice {
        Some(t) => {
            push_str(
                &mut buf,
                "<voice-transcription note=\"speech-to-text, may contain errors\">",
            );
            push_escaped(&mut buf, t.as_str());
            push_str(&mut buf, "</voice-transcription>");
            assert(buf@ =~= voice_part(*voice));
        },
        None => {},
    }
    buf
}

fn render_documents(docs: &Vec<DocumentContent>) -> (out: Vec<char>)
    ensures
        out@ == documents_part(docs@),
{
    let mut buf: Vec<char> = Vec::new();
    let mut i: usize = 0;
    while i < docs.len()
        invariant
            i <= docs.len(),
            buf@ == documents_part(docs@.take(i as int)),
        decreases docs.len() - i,
    {
        let ghost before = buf@;
        let doc = &docs[i];
        push_str(&mut buf, "<document name=\"");
        push_escaped_attr(&mut buf, doc.filename.as_str());
        push_str(&mut buf, "\">");
        push_escaped(&mut buf, doc.text.as_str());
        push_str(&mut buf, "</document>");
        proof {
            assert(docs@.take(i + 1).drop_last() =~= docs@.take(i as int));
            assert(docs@.take(i + 1).last() == docs@[i as int]);
            assert(buf@ =~= before + document_part(*doc));
        }
        i += 1;
    }
    proof {
        assert(docs@.take(docs@.len() as int) =~= docs@);
    }
    buf
}

/// Whether an entity reference of the formatter starts at position `i` of `s`.
pub open spec fn entity_at(s: Seq<char>, i: int) -> bool {
    ||| is_sub_at(s, seq!['&', 'l', 't', ';'], i)
    ||| is_sub_at(s, seq!['&', 'g', 't', ';'], i)
    ||| is_sub_at(s, seq!['&', 'a', 'm', 'p', ';'], i)
    ||| is_sub_at(s, seq!['&', 'q', 'u', 'o', 't', ';'], i)
}

/// Whether `s` carries no markup of its own: it holds no `<` and no `>`,
/// and every `&` in it starts an entity reference.
pub open spec fn is_inert(s: Seq<char>) -> bool {
    forall|i: int|
        0 <= i < s.len() ==> (#[trigger] s[i]) != '<' && s[i] != '>' && (s[i] == '&' ==> entity_at(
            s,
            i,
        ))
}

/// Whether `s` can stand in an attribute value: it is inert and holds no quote.
pub open spec fn is_inert_attr(s: Seq<char>) -> bool {
    is_inert(s) && forall|i: int| 0 <= i < s.len() ==> (#[trigger] s[i]) != '"'
}

proof fn lemma_entity_stays(a: Seq<char>, b: Seq<char>, i: int)
    ensures
        entity_at(a, i) ==> entity_at(a + b, i),
        entity_at(b, i) ==> entity_at(a + b, a.len() + i),
{
    let s = a + b;
    let lt = seq!['&', 'l', 't', ';'];
    let gt = seq!['&', 'g', 't', ';'];
    let amp = seq!['&', 'a', 'm', 'p', ';'];
    let quot = seq!['&', 'q', 'u', 'o', 't', ';'];
    if is_sub_at(a, lt, i) {
        assert(s.subrange(i, i + lt.len()) =~= a.subrange(i, i + lt.len()));
    }
    if is_sub_at(a, gt, i) {
        assert(s.subrange(i, i + gt.len()) =~= a.subrange(i, i + gt.len()));
    }
    if is_sub_at(a, amp, i) {
        assert(s.subrange(i, i + amp.len()) =~= a.subrange(i, i + amp.len()));
    }
    if is_sub_at(a, quot, i) {
        assert(s.subrange(i, i + quot.len()) =~= a.subrange(i, i + quot.len()));
    }
    let j = a.len() + i;
    if is_sub_at(b, lt, i) {
        assert(s.subrange(j, j + lt.len()) =~= b.subrange(i, i + lt.len()));
    }
    if is_sub_at(b, gt, i) {
        assert(s.subrange(j, j + gt.len()) =~= b.subrange(i, i + gt.len()));
    }
    if is_sub_at(b, amp, i) {
        assert(s.subrange(j, j + amp.len()) =~= b.subrange(i, i + amp.len()));
    }
    if is_sub_at(b, quot, i) {
        assert(s.subrange(j, j + quot.len()) =~= b.subrange(i, i + quot.len()));
    }
}

/// Inert texts stay inert when they are joined.
pub proof fn lemma_inert_concat(a: Seq<char>, b: Seq<char>)
    requires
        is_inert(a),
        is_inert(b),
    ensures
        is_inert(a + b),
        is_inert_attr(a) && is_inert_attr(b) ==> is_inert_attr(a + b),
{
    let s = a + b;
    assert forall|i: int| 0 <= i < s.len() implies (#[trigger] s[i]) != '<' && s[i] != '>' && (s[i]
        == '&' ==> entity_at(s, i)) by {
        if i < a.len() {
            assert(s[i] == a[i]);
            lemma_entity_stays(a, b, i);
        } else {
            assert(s[i] == b[i - a.len()]);
            lemma_entity_stays(a, b, i - a.len());
        }
    }
    if is_inert_attr(a) && is_inert_attr(b) {
        assert forall|i: int| 0 <= i < s.len() implies (#[trigger] s[i]) != '"' by {
            if i < a.len() {
                assert(s[i] == a[i]);
            } else {
                assert(s[i] == b[i - a.len()]);
            }
        }
    }
}

proof fn lemma_escaped_char_is_inert(c: char)
    ensures
        is_inert(escape_char(c)),
        is_inert_attr(escape_attr_char(c)),
{
    let e = escape_char(c);
    assert(e.subrange(0, e.len() as int) =~= e);
    let q = escape_attr_char(c);
    assert(q.subrange(0, q.len() as int) =~= q);
}

/// Escaped element content carries no markup of its own.
pub proof fn lemma_escaped_is_inert(s: Seq<char>)
    ensures
        is_inert(xml_escaped(s)),
    decreases s.len(),
{
    if s.len() > 0 {
        lemma_escaped_is_inert(s.drop_last());
        lemma_escaped_char_is_inert(s.last());
        lemma_inert_concat(xml_escaped(s.drop_last()), escape_char(s.last()));
    }
}

/// An escaped attribute value carries no markup of its own and no quote.
pub proof fn lemma_escaped_attr_is_inert(s: Seq<char>)
    ensures
        is_inert_attr(xml_escaped_attr(s)),
    decreases s.len(),
{
    if s.len() > 0 {
        lemma_escaped_attr_is_inert(s.drop_last());
        lemma_escaped_char_is_inert(s.last());
        lemma_inert_concat(xml_escaped_attr(s.drop_last()), escape_attr_char(s.last()));
    }
}

proof fn lemma_digits_are_inert(n: nat)
    ensures
        is_inert_attr(nat_digits(n)),
    decreases n,
{
    if n >= 10 {
        lemma_digits_are_inert(n / 10);
        let front = nat_digits(n / 10);
        let last = seq![crate::text::digit_char((n % 10) as int)];
        assert(is_inert_attr(last));
        lemma_inert_concat(front, last);
        assert(front + last =~= nat_digits(n));
    }
}

/// A number in decimal carries no markup of its own and no quote.
pub proof fn lemma_decimal_is_inert(n: int)
    ensures
        is_inert_attr(decimal(n)),
{
    if n < 0 {
        lemma_digits_are_inert((-n) as nat);
        assert(is_inert_attr(seq!['-']));
        lemma_inert_concat(seq!['-'], nat_digits((-n) as nat));
    } else {
        lemma_digits_are_inert(n as nat);
    }
}

/// A piece of a rendered message.
pub enum Segment {
    /// A delimiter that the formatter writes.
    Markup(Seq<char>),
    /// The value of an attribute.
    Value(Seq<char>),
    /// Content of an element.
    Content(Seq<char>),
}

/// The text of a piece.
pub open spec fn segment_text(segment: Segment) -> Seq<char> {
    match segment {
        Segment::Markup(t) => t,
        Segment::Value(t) => t,
        Segment::Content(t) => t,
    }
}

/// The pieces `segments` written one after the other.
pub open spec fn flat(segments: Seq<Segment>) -> Seq<char>
    decreases segments.len(),
{
    if segments.len() == 0 {
        Seq::empty()
    } else {
        flat(segments.drop_last()) + segment_text(segments.last())
    }
}

/// Whether `t` is one of the delimiters that the formatter writes.
pub open spec fn is_delimiter(t: Seq<char>) -> bool {
    ||| t == "<msg id=\""@
    ||| t == "\" chat=\""@
    ||| t == "\" user=\""@
    ||| t == "\" name=\""@
    ||| t == "\" time=\""@
    ||| t == "\">"@
    ||| t == "</msg>"@
    ||| t == "<reply id=\""@
    ||| t == "\" from=\""@
    ||| t == "</reply>"@
    ||| t == "<voice-transcription note=\"speech-to-text, may contain errors\">"@
    ||| t == "</voice-transcription>"@
    ||| t == "<document name=\""@
    ||| t == "</document>"@
}

/// Whether a piece is sound: markup is one of the formatter's delimiters,
/// an attribute value holds no `<`, `>`, quote or bare `&`, and content
/// holds no `<`, `>` or bare `&`.
pub open spec fn is_sound(segment: Segment) -> bool {
    match segment {
        Segment::Markup(t) => is_delimiter(t),
        Segment::Value(t) => is_inert_attr(t),
        Segment::Content(t) => is_inert(t),
    }
}

/// Whether every piece is sound.
pub open spec fn all_sound(segments: Seq<Segment>) -> bool {
    forall|i: int| 0 <= i < segments.len() ==> is_sound(#[trigger] segments[i])
}

/// The pieces of the rendering of a quoted message.
pub open spec fn reply_segments(reply: Option<ReplyTo>) -> Seq<Segment> {
    match reply {
        Some(r) => seq![
            Segment::Markup("<reply id=\""@),
            Segment::Value(decimal(r.message_id as int)),
            Segment::Markup("\" from=\""@),
            Segment::Value(xml_escaped_attr(r.username@)),
            Segment::Markup("\">"@),
            Segment::Content(xml_escaped(quoted(r.text@))),
            Segment::Markup("</reply>"@),
        ],
        None => Seq::empty(),
    }
}

/// The pieces of the rendering of a voice transcription.
pub open spec fn voice_segments(voice: Option<String>) -> Seq<Segment> {
    match voice {
        Some(t) => seq![
            Segment::Markup("<voice-transcription note=\"speech-to-text, may contain errors\">"@),
            Segment::Content(xml_escaped(t@)),
            Segment::Markup("</voice-transcription>"@),
        ],
        None => Seq::empty(),
    }
}

/// The pieces of the rendering of one document.
pub open spec fn document_segments(doc: DocumentContent) -> Seq<Segment> {
    seq![
        Segment::Markup("<document name=\""@),
        Segment::Value(xml_escaped_attr(doc.filename@)),
        Segment::Markup("\">"@),
        Segment::Content(xml_escaped(doc.text@)),
        Segment::Markup("</document>"@),
    ]
}

/// The pieces of the rendering of the documents, in order.
pub open spec fn documents_segments(docs: Seq<DocumentContent>) -> Seq<Segment>
    decreases docs.len(),
{
    if docs.len() == 0 {
        Seq::empty()
    } else {
        documents_segments(docs.drop_last()) + document_segments(docs.last())
    }
}

impl ChatMessage {
    /// The pieces of the opening tag.
    pub open spec fn open_segments(self) -> Seq<Segment> {
        seq![
            Segment::Markup("<msg id=\""@),
            Segment::Value(decimal(self.message_id as int)),
            Segment::Markup("\" chat=\""@),
            Segment::Value(decimal(self.chat_id as int)),
            Segment::Markup("\" user=\""@),
            Segment::Value(decimal(self.user_id as int)),
            Segment::Markup("\" name=\""@),
            Segment::Value(xml_escaped_attr(self.username@)),
            Segment::Markup("\" time=\""@),
            Segment::Value(xml_escaped_attr(self.timestamp@)),
            Segment::Markup("\">"@),
        ]
    }

    /// The pieces of the rendered message: the formatter's delimiters, and
    /// between them the values and contents that come from the message.
    pub open spec fn segments(self) -> Seq<Segment> {
        self.open_segments() + reply_segments(self.reply_to) + seq![
            Segment::Content(xml_escaped(self.text@)),
        ] + voice_segments(self.voice_transcription) + documents_segments(self.documents@) + seq![
            Segment::Markup("</msg>"@),
        ]
    }
}

proof fn lemma_flat_concat(a: Seq<Segment>, b: Seq<Segment>)
    ensures
        flat(a + b) == flat(a) + flat(b),
    decreases b.len(),
{
    if b.len() == 0 {
        assert(a + b =~= a);
        assert(flat(a) + flat(b) =~= flat(a));
    } else {
        assert((a + b).drop_last() =~= a + b.drop_last());
        assert((a + b).last() == b.last());
        lemma_flat_concat(a, b.drop_last());
        assert(flat(a + b) =~= flat(a) + flat(b));
    }
}

proof fn lemma_sound_concat(a: Seq<Segment>, b: Seq<Segment>)
    requires
        all_sound(a),
        all_sound(b),
    ensures
        all_sound(a + b),
{
    let s = a + b;
    assert forall|i: int| 0 <= i < s.len() implies is_sound(#[trigger] s[i]) by {
        if i < a.len() {
            assert(s[i] == a[i]);
        } else {
            assert(s[i] == b[i - a.len()]);
        }
    }
}

proof fn lemma_flat_one(a: Segment)
    ensures
        flat(seq![a]) == segment_text(a),
{
    assert(seq![a].drop_last() =~= Seq::<Segment>::empty());
    assert(seq![a].last() == a);
    assert(flat(Seq::<Segment>::empty()) =~= Seq::<char>::empty());
    assert(flat(seq![a]) =~= segment_text(a));
}

proof fn lemma_flat_three(a: Segment, b: Segment, c: Segment)
    ensures
        flat(seq![a, b, c]) == segment_text(a) + segment_text(b) + segment_text(c),
{
    let s = seq![a, b, c];
    assert(s.drop_last() =~= seq![a, b]);
    assert(seq![a, b].drop_last() =~= seq![a]);
    lemma_flat_one(a);
    assert(seq![a, b].last() == b);
    assert(s.last() == c);
    assert(flat(seq![a, b]) =~= segment_text(a) + segment_text(b));
}

proof fn lemma_flat_two(a: Segment, b: Segment)
    ensures
        flat(seq![a, b]) == segment_text(a) + segment_text(b),
{
    lemma_flat_one(a);
    assert(seq![a, b].drop_last() =~= seq![a]);
    assert(seq![a, b].last() == b);
}

proof fn lemma_reply_sound(reply: Option<ReplyTo>)
    ensures
        flat(reply_segments(reply)) == reply_part(reply),
        all_sound(reply_segments(reply)),
{
    match reply {
        Some(r) => {
            let a = seq![
                Segment::Markup("<reply id=\""@),
                Segment::Value(decimal(r.message_id as int)),
                Segment::Markup("\" from=\""@),
            ];
            let b = seq![
                Segment::Value(xml_escaped_attr(r.username@)),
                Segment::Markup("\">"@),
                Segment::Content(xml_escaped(quoted(r.text@))),
            ];
            let c = seq![Segment::Markup("</reply>"@)];
            assert(reply_segments(reply) =~= a + b + c);
            lemma_flat_three(a[0], a[1], a[2]);
            lemma_flat_three(b[0], b[1], b[2]);
            lemma_flat_one(c[0]);
            lemma_flat_concat(a, b);
            lemma_flat_concat(a + b, c);
            assert(flat(reply_segments(reply)) =~= reply_part(reply));
            lemma_decimal_is_inert(r.message_id as int);
            lemma_escaped_attr_is_inert(r.username@);
            lemma_escaped_is_inert(quoted(r.text@));
        },
        None => {},
    }
}

proof fn lemma_voice_sound(voice: Option<String>)
    ensures
        flat(voice_segments(voice)) == voice_part(voice),
        all_sound(voice_segments(voice)),
{
    match voice {
        Some(t) => {
            let s = voice_segments(voice);
            lemma_flat_three(s[0], s[1], s[2]);
            assert(s =~= seq![s[0], s[1], s[2]]);
            lemma_escaped_is_inert(t@);
        },
        None => {},
    }
}

proof fn lemma_document_sound(doc: DocumentContent)
    ensures
        flat(document_segments(doc)) == document_part(doc),
        all_sound(document_segments(doc)),
{
    let s = document_segments(doc);
    let a = seq![s[0], s[1], s[2]];
    let b = seq![s[3], s[4]];
    assert(s =~= a + b);
    lemma_flat_three(s[0], s[1], s[2]);
    lemma_flat_two(s[3], s[4]);
    lemma_flat_concat(a, b);
    assert(flat(s) =~= document_part(doc));
    lemma_escaped_attr_is_inert(doc.filename@);
    lemma_escaped_is_inert(doc.text@);
}

proof fn lemma_documents_sound(docs: Seq<DocumentContent>)
    ensures
        flat(documents_segments(docs)) == documents_part(docs),
        all_sound(documents_segments(docs)),
    decreases docs.len(),
{
    if docs.len() > 0 {
        lemma_documents_sound(docs.drop_last());
        lemma_document_sound(docs.last());
        lemma_flat_concat(documents_segments(docs.drop_last()), document_segments(docs.last()));
        lemma_sound_concat(documents_segments(docs.drop_last()), document_segments(docs.last()));
    }
}

proof fn lemma_open_sound(m: ChatMessage)
    ensures
        flat(m.open_segments()) == m.open_tag(),
        all_sound(m.open_segments()),
{
    let s = m.open_segments();
    let a = seq![s[0], s[1], s[2]];
    let b = seq![s[3], s[4], s[5]];
    let c = seq![s[6], s[7], s[8]];
    let d = seq![s[9], s[10]];
    assert(s =~= a + b + c + d);
    lemma_flat_three(s[0], s[1], s[2]);
    lemma_flat_three(s[3], s[4], s[5]);
    lemma_flat_three(s[6], s[7], s[8]);
    lemma_flat_two(s[9], s[10]);
    lemma_flat_concat(a, b);
    lemma_flat_concat(a + b, c);
    lemma_flat_concat(a + b + c, d);
    assert(flat(s) =~= m.open_tag());
    lemma_decimal_is_inert(m.message_id as int);
    lemma_decimal_is_inert(m.chat_id as int);
    lemma_decimal_is_inert(m.user_id as int);
    lemma_escaped_attr_is_inert(m.username@);
    lemma_escaped_attr_is_inert(m.timestamp@);
}

/// Escape soundness: a rendered message is made of the formatter's own
/// delimiters and, between them, of pieces that come from the message. In
/// every such piece `<` and `>` never occur and `&` only starts an entity
/// reference; in an attribute value no quote occurs either. So no part of
/// a message can close an element or open another one.
pub proof fn lemma_escape_soundness(m: ChatMessage)
    ensures
        flat(m.segments()) == m.formatted(),
        all_sound(m.segments()),
{
    let open = m.open_segments();
    let reply = reply_segments(m.reply_to);
    let text = seq![Segment::Content(xml_escaped(m.text@))];
    let voice = voice_segments(m.voice_transcription);
    let docs = documents_segments(m.documents@);
    let close = seq![Segment::Markup("</msg>"@)];
    lemma_open_sound(m);
    lemma_reply_sound(m.reply_to);
    lemma_flat_one(text[0]);
    lemma_escaped_is_inert(m.text@);
    lemma_voice_sound(m.voice_transcription);
    lemma_documents_sound(m.documents@);
    lemma_flat_one(close[0]);
    lemma_flat_concat(open, reply);
    lemma_flat_concat(open + reply, text);
    lemma_flat_concat(open + reply + text, voice);
    lemma_flat_concat(open + reply + text + voice, docs);
    lemma_flat_concat(open + reply + text + voice + docs, close);
    lemma_sound_concat(open, reply);
    lemma_sound_concat(open + reply, text);
    lemma_sound_concat(open + reply + text, voice);
    lemma_sound_concat(open + reply + text + voice, docs);
    lemma_sound_concat(open + reply + text + voice + docs, close);
}

} // verus!
