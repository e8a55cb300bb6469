//! Reading a chat export: sender ids, timestamps and text entities.

use crate::message::byte_len;
use crate::reminders::{digits_value, is_digit};
use crate::text::{
    chars_of, find_char, has_prefix, index_of, matches_at, push_str, slice_of, string_of,
};
use vstd::prelude::*;
use vstd::string::StringSliceAdditionalSpecFns;
use vstd::utf8::{decode_utf8, encode_utf8, is_char_boundary};

verus! {

/// `s` without the repetitions of `prefix` at its start.
pub open spec fn without_prefix(s: Seq<char>, prefix: Seq<char>) -> Seq<char>
    decreases s.len(),
{
    if prefix.len() > 0 && has_prefix(s, prefix) {
        without_prefix(s.subrange(prefix.len() as int, s.len() as int), prefix)
    } else {
        s
    }
}

/// The number that `s` writes in decimal with an optional sign, if it
/// writes one that fits 64 bits.
pub open spec fn signed_value(s: Seq<char>) -> Option<int> {
    let negative = s.len() > 0 && s[0] == '-';
    let digits = if s.len() > 0 && (s[0] == '-' || s[0] == '+') {
        s.subrange(1, s.len() as int)
    } else {
        s
    };
    let value = if negative {
        -(digits_value(digits) as int)
    } else {
        digits_value(digits) as int
    };
    if digits.len() > 0 && all_digits(digits) && i64::MIN <= value <= i64::MAX {
        Some(value)
    } else {
        None
    }
}

/// Whether `s` holds nothing but decimal digits.
pub open spec fn all_digits(s: Seq<char>) -> bool {
    forall|i: int| 0 <= i < s.len() ==> is_digit(#[trigger] s[i])
}

/// The id that the sender field `from_id` of an export names: the number
/// after `user` or `channel`, or 0 where there is none.
pub open spec fn user_id_of(from_id: Seq<char>) -> int {
    match signed_value(without_prefix(without_prefix(from_id, "user"@), "channel"@)) {
        Some(id) => id,
        None => 0,
    }
}

fn strip_prefix(s: Vec<char>, prefix: &Vec<char>) -> (out: Vec<char>)
    ensures
        out@ == without_prefix(s@, prefix@),
{
    if prefix.len() == 0 {
        return s;
    }
    let mut start: usize = 0;
    let total = s.len();
    proof {
        assert(s@.subrange(0, s@.len() as int) =~= s@);
    }
    while start <= total && matches_at(&s, prefix, start)
        invariant
            total == s@.len(),
            start <= total,
            prefix@.len() > 0,
            without_prefix(s@, prefix@) == without_prefix(
                s@.subrange(start as int, total as int),
                prefix@,
            ),
        decreases total - start,
    {
        proof {
            let rest = s@.subrange(start as int, total as int);
            assert(rest.subrange(0, prefix@.len() as int) =~= s@.subrange(
                start as int,
                start + prefix@.len(),
            ));
            assert(rest.subrange(prefix@.len() as int, rest.len() as int) =~= s@.subrange(
                start + prefix@.len(),
                total as int,
            ));
        }
        start = start + prefix.len();
    }
    proof {
        let rest = s@.subrange(start as int, total as int);
        if has_prefix(rest, prefix@) {
            assert(rest.subrange(0, prefix@.len() as int) =~= s@.subrange(
                start as int,
                start + prefix@.len(),
            ));
        }
    }
    slice_of(&s, start, total)
}

/// The largest magnitude that a number of 64 bits with a sign has.
pub const MAGNITUDE_LIMIT: u128 = 9223372036854775808;

fn magnitude(digits: &Vec<char>) -> (r: Option<u128>)
    ensures
        match r {
            Some(v) => {
                &&& v == digits_value(digits@)
                &&& v <= MAGNITUDE_LIMIT
                &&& forall|i: int| 0 <= i < digits@.len() ==> is_digit(#[trigger] digits@[i])
            },
            None => digits_value(digits@) > MAGNITUDE_LIMIT || exists|i: int|
                0 <= i < digits@.len() && !is_digit(#[trigger] digits@[i]),
        },
{
    let mut value: u128 = 0;
    let mut i: usize = 0;
    while i < digits.len()
        invariant
            i <= digits@.len(),
            value == digits_value(digits@.take(i as int)),
            value <= MAGNITUDE_LIMIT,
            forall|k: int| 0 <= k < i ==> is_digit(#[trigger] digits@[k]),
        decreases digits@.len() - i,
    {
        let c = digits[i];
        if !('0' <= c && c <= '9') {
            assert(!is_digit(digits@[i as int]));
            return None;
        }
        let d: u128 = (c as u32 - '0' as u32) as u128;
        proof {
            assert(digits@.take(i + 1).drop_last() =~= digits@.take(i as int));
            assert(digits@.take(i + 1).last() == c);
        }
        let next = value * 10 + d;
        if next > MAGNITUDE_LIMIT {
            let mut k: usize = i + 1;
            while k < digits.len()
                invariant
                    i < k <= digits@.len(),
                    forall|j: int| 0 <= j < k ==> is_digit(#[trigger] digits@[j]),
                decreases digits@.len() - k,
            {
                if !('0' <= digits[k] && digits[k] <= '9') {
                    assert(!is_digit(digits@[k as int]));
                    return None;
                }
                k += 1;
            }
            proof {
                lemma_value_grows(digits@, i + 1);
            }
            return None;
        }
        value = next;
        i += 1;
    }
    proof {
        assert(digits@.take(digits@.len() as int) =~= digits@);
    }
    Some(value)
}

proof fn lemma_value_grows(digits: Seq<char>, k: int)
    requires
        0 <= k <= digits.len(),
    ensures
        digits_value(digits.take(k)) <= digits_value(digits),
    decreases digits.len() - k,
{
    if k < digits.len() {
        lemma_value_grows(digits, k + 1);
        assert(digits.take(k + 1).drop_last() =~= digits.take(k));
        assert(digits_value(digits.take(k + 1)) == digits_value(digits.take(k)) * 10 + (
        digits.take(k + 1).last() as u32 - '0' as u32) as nat);
    } else {
        assert(digits.take(k) =~= digits);
    }
}

fn parse_signed(s: &Vec<char>) -> (r: Option<i64>)
    ensures
        match r {
            Some(v) => signed_value(s@) == Some(v as int),
            None => signed_value(s@) is None,
        },
{
    let negative = s.len() > 0 && s[0] == '-';
    let signed = s.len() > 0 && (s[0] == '-' || s[0] == '+');
    let digits = if signed {
        slice_of(s, 1, s.len())
    } else {
        proof {
            assert(s@.subrange(0, s@.len() as int) =~= s@);
        }
        slice_of(s, 0, s.len())
    };
    if digits.len() == 0 {
        return None;
    }
    match magnitude(&digits) {
        Some(v) => {
            if negative {
                if v == MAGNITUDE_LIMIT {
                    Some(i64::MIN)
                } else {
                    Some(-(v as i64))
                }
            } else if v > 9223372036854775807 {
                None
            } else {
                Some(v as i64)
            }
        },
        None => None,
    }
}

/// Reads the id of a sender from an export: `user123` and `channel123`
/// both give 123, anything that is no number gives 0.
pub fn parse_user_id(from_id: &str) -> (id: i64)
    ensures
        id == user_id_of(from_id@),
{
    let rest = strip_prefix(chars_of(from_id), &chars_of("user"));
    let rest = strip_prefix(rest, &chars_of("channel"));
    match parse_signed(&rest) {
        Some(id) => id,
        None => 0,
    }
}

/// The part of `date` between its first `T` and the next one, if it has a `T`.
pub open spec fn time_part(date: Seq<char>) -> Option<Seq<char>> {
    let t = find_char(date, 0, 'T');
    if t < date.len() {
        Some(date.subrange(t + 1, find_char(date, t + 1, 'T')))
    } else {
        None
    }
}

/// The time of day of the export date `date`: the five bytes after its
/// `T`, or the whole date where it has no such part.
pub open spec fn hour_minute(date: Seq<char>) -> Seq<char> {
    match time_part(date) {
        Some(part) => if byte_len(part) >= 5 && is_char_boundary(encode_utf8(part), 5) {
            decode_utf8(encode_utf8(part).subrange(0, 5))
        } else {
            date
        },
        None => date,
    }
}

/// Reads the time of day from an export date: `2024-01-15T10:30:00` gives `10:30`.
pub fn parse_timestamp(date: &str) -> (out: String)
    ensures
        out@ == hour_minute(date@),
{
    broadcast use vstd::utf8::encode_utf8_decode_utf8;

    let chars = chars_of(date);
    let t = index_of(&chars, 0, 'T');
    if t >= chars.len() {
        return date.to_owned();
    }
    let end = index_of(&chars, t + 1, 'T');
    let part = string_of(&slice_of(&chars, t + 1, end));
    let piece = part.as_str();
    if piece.as_bytes().len() >= 5 && piece.is_char_boundary(5) {
        let (head, _) = piece.split_at(5);
        assert(head@ == decode_utf8(encode_utf8(head@)));
        head.to_owned()
    } else {
        date.to_owned()
    }
}

/// One entity of the text of an exported message: plain or formatted text.
#[derive(Clone, Debug)]
pub enum TextEntity {
    Plain(String),
    Formatted { text: String },
}

/// The text of an exported message.
#[derive(Clone, Debug)]
pub enum TextContent {
    Empty,
    Simple(String),
    Complex(Vec<TextEntity>),
}

/// The text of one entity.
pub open spec fn entity_text(entity: TextEntity) -> Seq<char> {
    match entity {
        TextEntity::Plain(s) => s@,
        TextEntity::Formatted { text } => text@,
    }
}

/// The texts of the entities, one after the other.
pub open spec fn entities_text(entities: Seq<TextEntity>) -> Seq<char>
    decreases entities.len(),
{
    if entities.len() == 0 {
        Seq::empty()
    } else {
        entities_text(entities.drop_last()) + entity_text(entities.last())
    }
}

impl TextContent {
    /// The text as one string.
    pub open spec fn text(self) -> Seq<char> {
        match self {
            TextContent::Empty => Seq::empty(),
            TextContent::Simple(s) => s@,
            TextContent::Complex(entities) => entities_text(entities@),
        }
    }

    /// Flattens the text into one string.
    pub fn flatten(&self) -> (out: String)
        ensures
            out@ == self.text(),
    {
        match self {
            TextContent::Empty => String::new(),
            TextContent::Simple(s) => s.clone(),
            TextContent::Complex(entities) => {
                let mut buf: Vec<char> = Vec::new();
                let mut i: usize = 0;
                while i < entities.len()
                    invariant
                        i <= entities@.len(),
                        buf@ == entities_text(entities@.take(i as int)),
                    decreases entities@.len() - i,
                {
                    proof {
                        assert(entities@.take(i + 1).drop_last() =~= entities@.take(i as int));
                        assert(entities@.take(i + 1).last() == entities@[i as int]);
                    }
                    match &entities[i] {
                        TextEntity::Plain(s) => push_str(&mut buf, s.as_str()),
                        TextEntity::Formatted { text } => push_str(&mut buf, text.as_str()),
                    }
                    i += 1;
                }
                proof {
                    assert(entities@.take(entities@.len() as int) =~= entities@);
                }
                string_of(&buf)
            },
        }
    }
}

/// The first name under which an imported member is stored: the first
/// name, else the username, else `User` followed by the id.
pub fn import_first_name(user_id: i64, username: Option<&str>, first_name: Option<&str>) -> (out:
    String)
    ensures
        out@ == match first_name {
            Some(name) => name@,
            None => match username {
                Some(name) => name@,
                None => "User"@ + crate::text::decimal(user_id as int),
            },
        },
{
    match first_name {
        Some(name) => name.to_owned(),
        None => match username {
            Some(name) => name.to_owned(),
            None => {
                let mut buf: Vec<char> = Vec::new();
                push_str(&mut buf, "User");
                crate::text::push_decimal(&mut buf, user_id);
                string_of(&buf)
            },
        },
    }
}

} // verus!
