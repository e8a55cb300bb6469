//! What the bot asks of web services and what it makes of their answers:
//! video metadata and generated images.

use crate::memory::first_match;
use crate::text::{chars_of, concat, find_from, push_all, push_str, slice_of, string_of};
use vstd::prelude::*;
use vstd::string::StringSliceAdditionalSpecFns;
use vstd::utf8::encode_utf8;

verus! {

/// Whether a byte stands for itself in a percent-encoded text: letters,
/// digits, `-`, `.`, `_` and `~` do.
pub open spec fn is_unreserved(b: u8) -> bool {
    ||| 0x30 <= b <= 0x39
    ||| 0x41 <= b <= 0x5a
    ||| 0x61 <= b <= 0x7a
    ||| b == 0x2d
    ||| b == 0x2e
    ||| b == 0x5f
    ||| b == 0x7e
}

/// The hexadecimal digit for `d` in `0..=15`, in capitals.
pub open spec fn hex_digit(d: u8) -> char {
    if d < 10 {
        (0x30 + d) as char
    } else {
        (0x41 + d - 10) as char
    }
}

/// The percent-encoding of one byte.
pub open spec fn percent_byte(b: u8) -> Seq<char> {
    if is_unreserved(b) {
        seq![b as char]
    } else {
        seq!['%', hex_digit(b / 16), hex_digit(b % 16)]
    }
}

/// The percent-encoding of `bytes`.
pub open spec fn percent_encoded(bytes: Seq<u8>) -> Seq<char>
    decreases bytes.len(),
{
    if bytes.len() == 0 {
        Seq::empty()
    } else {
        percent_encoded(bytes.drop_last()) + percent_byte(bytes.last())
    }
}

/// Percent-encodes a text for use in a query string.
///
/// Trusted: calls `urlencoding::encode`, which encodes every byte of the
/// text's UTF-8 form except letters, digits, `-`, `.`, `_` and `~` as `%`
/// and two hexadecimal digits in capitals.
#[verifier::external_body]
fn percent_encode(text: &str) -> (out: String)
    ensures
        out@ == percent_encoded(encode_utf8(text@)),
{
    urlencoding::encode(text).into_owned()
}

/// `s` from position `from` on, with every match of `needle` replaced by
/// `with`. Matches are taken from the left and do not overlap.
pub open spec fn replaced_from(s: Seq<char>, needle: Seq<char>, with: Seq<char>, from: int) -> Seq<
    char,
>
    decreases s.len() - from + 1,
{
    let at = first_match(s, needle, from);
    if needle.len() == 0 || from < 0 || at < from || at + needle.len() > s.len() {
        if 0 <= from <= s.len() {
            s.subrange(from, s.len() as int)
        } else {
            Seq::empty()
        }
    } else {
        s.subrange(from, at) + with + replaced_from(s, needle, with, at + needle.len())
    }
}

fn replace_all(s: &Vec<char>, needle: &Vec<char>, with: &Vec<char>) -> (out: Vec<char>)
    requires
        needle@.len() > 0,
    ensures
        out@ == replaced_from(s@, needle@, with@, 0),
{
    let mut out: Vec<char> = Vec::new();
    let mut from: usize = 0;
    let total = s.len();
    loop
        invariant
            total == s@.len(),
            needle@.len() > 0,
            from <= total,
            out@ + replaced_from(s@, needle@, with@, from as int) == replaced_from(
                s@,
                needle@,
                with@,
                0,
            ),
        decreases total - from,
    {
        let ghost before = out@;
        match find_from(s, needle, from) {
            Some(at) => {
                proof {
                    crate::memory::lemma_first_match(s@, needle@, from as int, at as int);
                }
                push_all(&mut out, &slice_of(s, from, at));
                push_all(&mut out, with);
                proof {
                    assert(out@ + replaced_from(s@, needle@, with@, at + needle@.len()) =~= before
                        + replaced_from(s@, needle@, with@, from as int));
                }
                from = at + needle.len();
            },
            None => {
                proof {
                    crate::memory::lemma_first_match(s@, needle@, from as int, -1);
                }
                push_all(&mut out, &slice_of(s, from, total));
                proof {
                    assert(out@ =~= before + replaced_from(s@, needle@, with@, from as int));
                }
                return out;
            },
        }
    }
}

/// The address of a video as the metadata service knows it: the music
/// site is replaced by the main site.
pub open spec fn normalized_url(url: Seq<char>) -> Seq<char> {
    replaced_from(url, "music.youtube.com"@, "www.youtube.com"@, 0)
}

/// The address at which the metadata of the video `url` is asked for.
pub open spec fn oembed_address(url: Seq<char>) -> Seq<char> {
    "https://www.youtube.com/oembed?url="@ + percent_encoded(encode_utf8(normalized_url(url)))
        + "&format=json"@
}

/// Builds the address at which the metadata of a video is asked for.
pub fn oembed_url(url: &str) -> (out: String)
    ensures
        out@ == oembed_address(url@),
{
    let needle = chars_of("music.youtube.com");
    assert(needle@.len() > 0) by {
        reveal_strlit("music.youtube.com");
    }
    let normalized = string_of(&replace_all(&chars_of(url), &needle, &chars_of("www.youtube.com")));
    let encoded = percent_encode(normalized.as_str());
    let mut buf: Vec<char> = Vec::new();
    push_str(&mut buf, "https://www.youtube.com/oembed?url=");
    push_str(&mut buf, encoded.as_str());
    push_str(&mut buf, "&format=json");
    string_of(&buf)
}

/// The text of an optional field, or `fallback` where it is absent.
pub open spec fn or_text(field: Option<String>, fallback: Seq<char>) -> Seq<char> {
    match field {
        Some(text) => text@,
        None => fallback,
    }
}

/// Formats the metadata of a video for the reasoner. A title or author
/// that the service did not name is shown as unknown.
pub fn video_info(title: Option<String>, author: Option<String>, thumbnail: Option<String>) -> (out:
    String)
    ensures
        out@ == "Title: "@ + or_text(title, "Unknown"@) + "\nAuthor: "@ + or_text(
            author,
            "Unknown"@,
        ) + "\nThumbnail: "@ + or_text(thumbnail, Seq::empty()),
{
    let mut buf: Vec<char> = Vec::new();
    push_str(&mut buf, "Title: ");
    match &title {
        Some(text) => push_str(&mut buf, text.as_str()),
        None => push_str(&mut buf, "Unknown"),
    }
    push_str(&mut buf, "\nAuthor: ");
    match &author {
        Some(text) => push_str(&mut buf, text.as_str()),
        None => push_str(&mut buf, "Unknown"),
    }
    push_str(&mut buf, "\nThumbnail: ");
    match &thumbnail {
        Some(text) => push_str(&mut buf, text.as_str()),
        None => {
            assert(buf@ =~= buf@ + Seq::<char>::empty());
        },
    }
    string_of(&buf)
}

/// A generated image.
#[derive(Clone, Debug)]
pub struct GeneratedImage {
    pub data: Vec<u8>,
}

/// One candidate of an answer of the image service: the inline data of
/// each of its parts, where a part has some, if the candidate has content.
#[derive(Clone, Debug)]
pub struct Candidate {
    pub parts: Option<Vec<Option<String>>>,
}

/// An answer of the image service.
#[derive(Clone, Debug)]
pub struct GenerateResponse {
    pub candidates: Option<Vec<Candidate>>,
    /// The message of the error that the service reports, if it reports one.
    pub error: Option<String>,
}

/// What decoding the base64 text `text` gives: the bytes, or the decoder's complaint.
pub uninterp spec fn base64_bytes(text: Seq<char>) -> Result<Seq<u8>, Seq<char>>;

/// The base64 text of `bytes`, in the standard alphabet with padding.
pub uninterp spec fn base64_text(bytes: Seq<u8>) -> Seq<char>;

/// The view of decoded bytes.
pub open spec fn bytes_view(r: Result<Vec<u8>, String>) -> Result<Seq<u8>, Seq<char>> {
    match r {
        Ok(bytes) => Ok(bytes@),
        Err(e) => Err(e@),
    }
}

/// Decodes base64 text.
///
/// Trusted: calls `Engine::decode` of `base64::engine::general_purpose::STANDARD`.
/// The result depends on the text alone and is named by [`base64_bytes`].
#[verifier::external_body]
fn base64_decode(text: &str) -> (r: Result<Vec<u8>, String>)
    ensures
        bytes_view(r) == base64_bytes(text@),
{
    match base64::Engine::decode(&base64::engine::general_purpose::STANDARD, text) {
        Ok(bytes) => Ok(bytes),
        Err(e) => Err(e.to_string()),
    }
}

/// Encodes bytes as base64 text.
///
/// Trusted: calls `Engine::encode` of `base64::engine::general_purpose::STANDARD`.
/// The result depends on the bytes alone and is named by [`base64_text`].
#[verifier::external_body]
fn base64_encode(bytes: &Vec<u8>) -> (out: String)
    ensures
        out@ == base64_text(bytes@),
{
    base64::Engine::encode(&base64::engine::general_purpose::STANDARD, bytes)
}

/// The first part among `parts` that carries inline data.
pub open spec fn first_inline(parts: Seq<Option<String>>) -> Option<int>
    decreases parts.len(),
{
    if parts.len() == 0 {
        None
    } else {
        match first_inline(parts.drop_last()) {
            Some(i) => Some(i),
            None => if parts.last() is Some {
                Some(parts.len() - 1)
            } else {
                None
            },
        }
    }
}

/// What the answer of the image service amounts to, before any decoding:
/// the base64 text of the image, or the reason why there is none.
pub open spec fn image_data(response: GenerateResponse) -> Result<String, Seq<char>> {
    match response.error {
        Some(message) => Err("Gemini error: "@ + message@),
        None => match response.candidates {
            None => Err("No candidates in response"@),
            Some(candidates) => if candidates@.len() == 0 {
                Err("Empty candidates array"@)
            } else {
                match candidates@[0].parts {
                    None => Err("No content in candidate"@),
                    Some(parts) => match first_inline(parts@) {
                        Some(i) => Ok(parts@[i]->0),
                        None => Err("No image in response"@),
                    },
                }
            },
        },
    }
}

/// The image that the answer of the image service carries, or the reason
/// why it carries none.
pub open spec fn image_of(response: GenerateResponse) -> Result<Seq<u8>, Seq<char>> {
    match image_data(response) {
        Ok(data) => match base64_bytes(data@) {
            Ok(bytes) => Ok(bytes),
            Err(e) => Err("Failed to decode base64: "@ + e),
        },
        Err(why) => Err(why),
    }
}

/// The view of a generated image or of the reason why there is none.
pub open spec fn image_view(r: Result<GeneratedImage, String>) -> Result<Seq<u8>, Seq<char>> {
    match r {
        Ok(image) => Ok(image.data@),
        Err(e) => Err(e@),
    }
}

proof fn lemma_inline_stays(parts: Seq<Option<String>>, n: int)
    requires
        0 <= n <= parts.len(),
        first_inline(parts.take(n)) is Some,
    ensures
        first_inline(parts) == first_inline(parts.take(n)),
    decreases parts.len() - n,
{
    if n < parts.len() {
        assert(parts.take(n + 1).drop_last() =~= parts.take(n));
        lemma_inline_stays(parts, n + 1);
    } else {
        assert(parts.take(n) =~= parts);
    }
}

/// Reads the image out of an answer of the image service: the inline data
/// of the first part of the first candidate that carries some.
#[verifier::loop_isolation(false)]
pub fn read_image(response: &GenerateResponse) -> (r: Result<GeneratedImage, String>)
    ensures
        image_view(r) == image_of(*response),
{
    match &response.error {
        Some(message) => {
            return Err(concat("Gemini error: ", message.as_str()));
        },
        None => {},
    }
    let candidates = match &response.candidates {
        Some(candidates) => candidates,
        None => {
            return Err("No candidates in response".to_owned());
        },
    };
    if candidates.len() == 0 {
        return Err("Empty candidates array".to_owned());
    }
    let parts = match &candidates[0].parts {
        Some(parts) => parts,
        None => {
            return Err("No content in candidate".to_owned());
        },
    };
    let mut i: usize = 0;
    while i < parts.len()
        invariant
            i <= parts@.len(),
            first_inline(parts@.take(i as int)) is None,
        decreases parts@.len() - i,
    {
        proof {
            assert(parts@.take(i + 1).drop_last() =~= parts@.take(i as int));
            assert(parts@.take(i + 1).last() == parts@[i as int]);
        }
        match &parts[i] {
            Some(data) => {
                proof {
                    assert(first_inline(parts@.take(i + 1)) == Some(i as int));
                    lemma_inline_stays(parts@, i + 1);
                    assert(parts@[i as int]->0 == *data);
                }
                return match base64_decode(data.as_str()) {
                    Ok(bytes) => Ok(GeneratedImage { data: bytes }),
                    Err(e) => Err(concat("Failed to decode base64: ", e.as_str())),
                };
            },
            None => {},
        }
        i += 1;
    }
    proof {
        assert(parts@.take(parts@.len() as int) =~= parts@);
    }
    Err("No image in response".to_owned())
}

/// A block of the content of a frame that is sent to the reasoner.
#[derive(Clone, Debug)]
pub enum ContentBlock {
    Text { text: String },
    /// An image as base64 text with its media type.
    Image { media_type: String, data: String },
}

/// The content of a frame that is sent to the reasoner.
#[derive(Clone, Debug)]
pub enum FrameContent {
    Text(String),
    Blocks(Vec<ContentBlock>),
}

/// The content of a frame that carries a text and an image: the text
/// first, then the image.
pub fn image_content(text: String, data: &Vec<u8>, media_type: String) -> (content: FrameContent)
    ensures
        content matches FrameContent::Blocks(blocks) && blocks@.len() == 2 && blocks@[0]
            == (ContentBlock::Text { text }) && (blocks@[1] matches ContentBlock::Image {
            media_type: kind,
            data: encoded,
        } && kind == media_type && encoded@ == base64_text(data@)),
{
    let mut blocks: Vec<ContentBlock> = Vec::new();
    blocks.push(ContentBlock::Text { text });
    blocks.push(ContentBlock::Image { media_type, data: base64_encode(data) });
    FrameContent::Blocks(blocks)
}

} // verus!
