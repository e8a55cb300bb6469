//! The archive's rules: which queries it accepts, how it shows rows, which
//! recent messages fit a token budget, and how members are selected.
//!
//! The archive itself is a relational store that the caller owns; this
//! module decides on plain values what goes into it and what comes out.

use crate::message::ChatMessage;
use crate::order::{lemma_lex_irreflexive, lemma_lex_total, lemma_lex_transitive};
use crate::text::{
    chars_of, contains, contains_sub, has_prefix, join, joined, less_than, lex_less, nat_digits,
    push_all, push_decimal, push_str, push_unsigned, same_chars, slice_of, starts_with, str_eq,
    string_of, to_upper, trim, trimmed, uppercased, views,
};
use vstd::prelude::*;

verus! {

/// Member status in the group.
#[derive(Clone, Copy, Debug, PartialEq, Eq, Structural)]
pub enum MemberStatus {
    Member,
    Left,
    Banned,
}

impl MemberStatus {
    /// The status that the stored text `s` names. Any text but `left` and
    /// `banned` names a member.
    pub open spec fn named(s: Seq<char>) -> MemberStatus {
        if s == "left"@ {
            MemberStatus::Left
        } else if s == "banned"@ {
            MemberStatus::Banned
        } else {
            MemberStatus::Member
        }
    }

    /// Reads a status as the archive stores it.
    pub fn from_str(s: &str) -> (status: MemberStatus)
        ensures
            status == Self::named(s@),
    {
        if str_eq(s, "left") {
            MemberStatus::Left
        } else if str_eq(s, "banned") {
            MemberStatus::Banned
        } else {
            MemberStatus::Member
        }
    }

    /// The status as the archive stores it.
    pub fn as_str(&self) -> (out: &'static str)
        ensures
            out@ == match self {
                MemberStatus::Member => "member"@,
                MemberStatus::Left => "left"@,
                MemberStatus::Banned => "banned"@,
            },
    {
        match self {
            MemberStatus::Member => "member",
            MemberStatus::Left => "left",
            MemberStatus::Banned => "banned",
        }
    }
}

/// A group member.
#[derive(Clone, Debug)]
pub struct Member {
    pub user_id: i64,
    pub username: Option<String>,
    pub first_name: String,
    pub join_date: String,
    pub last_message_date: Option<String>,
    pub message_count: u32,
    pub status: MemberStatus,
}

/// The words that no query may hold, in the order in which they are looked for.
pub open spec fn forbidden_words() -> Seq<Seq<char>> {
    seq![
        "INSERT"@,
        "UPDATE"@,
        "DELETE"@,
        "DROP"@,
        "ALTER"@,
        "CREATE"@,
        "ATTACH"@,
        "DETACH"@,
    ]
}

/// The first forbidden word that `statement` holds, if it holds one.
pub open spec fn first_forbidden(statement: Seq<char>) -> Option<Seq<char>> {
    if contains_sub(statement, "INSERT"@) {
        Some("INSERT"@)
    } else if contains_sub(statement, "UPDATE"@) {
        Some("UPDATE"@)
    } else if contains_sub(statement, "DELETE"@) {
        Some("DELETE"@)
    } else if contains_sub(statement, "DROP"@) {
        Some("DROP"@)
    } else if contains_sub(statement, "ALTER"@) {
        Some("ALTER"@)
    } else if contains_sub(statement, "CREATE"@) {
        Some("CREATE"@)
    } else if contains_sub(statement, "ATTACH"@) {
        Some("ATTACH"@)
    } else if contains_sub(statement, "DETACH"@) {
        Some("DETACH"@)
    } else {
        None
    }
}

/// Whether the query `sql` is read-only: trimmed and in capitals, it
/// begins with `SELECT` and holds none of the forbidden words.
pub open spec fn is_read_only(sql: Seq<char>) -> bool {
    let statement = uppercased(trimmed(sql));
    &&& has_prefix(statement, "SELECT"@)
    &&& forall|i: int|
        0 <= i < forbidden_words().len() ==> !contains_sub(
            statement,
            #[trigger] forbidden_words()[i],
        )
}

/// Why the query `sql` is refused, if it is.
pub open spec fn query_fault(sql: Seq<char>) -> Option<Seq<char>> {
    let statement = uppercased(trimmed(sql));
    if !has_prefix(statement, "SELECT"@) {
        Some("Only SELECT queries are allowed"@)
    } else {
        match first_forbidden(statement) {
            Some(word) => Some("Query contains forbidden keyword: "@ + word),
            None => None,
        }
    }
}

fn forbidden_in(statement: &Vec<char>) -> (r: Option<&'static str>)
    ensures
        match r {
            Some(word) => first_forbidden(statement@) == Some(word@),
            None => first_forbidden(statement@) is None,
        },
{
    if contains(statement, &chars_of("INSERT")) {
        Some("INSERT")
    } else if contains(statement, &chars_of("UPDATE")) {
        Some("UPDATE")
    } else if contains(statement, &chars_of("DELETE")) {
        Some("DELETE")
    } else if contains(statement, &chars_of("DROP")) {
        Some("DROP")
    } else if contains(statement, &chars_of("ALTER")) {
        Some("ALTER")
    } else if contains(statement, &chars_of("CREATE")) {
        Some("CREATE")
    } else if contains(statement, &chars_of("ATTACH")) {
        Some("ATTACH")
    } else if contains(statement, &chars_of("DETACH")) {
        Some("DETACH")
    } else {
        None
    }
}

/// Checks a query before it reaches the store. Only a statement that
/// begins with `SELECT` and holds no forbidden word is let through.
pub fn check_query(sql: &str) -> (r: Result<(), String>)
    ensures
        r is Ok <==> is_read_only(sql@),
        match r {
            Ok(()) => query_fault(sql@) is None,
            Err(e) => query_fault(sql@) == Some(e@),
        },
{
    let statement = to_upper(&trim(&chars_of(sql)));
    proof {
        let words = forbidden_words();
        assert(words[0] == "INSERT"@ && words[1] == "UPDATE"@ && words[2] == "DELETE"@ && words[3]
            == "DROP"@ && words[4] == "ALTER"@ && words[5] == "CREATE"@ && words[6] == "ATTACH"@
            && words[7] == "DETACH"@);
    }
    if !starts_with(&statement, &chars_of("SELECT")) {
        return Err("Only SELECT queries are allowed".to_owned());
    }
    match forbidden_in(&statement) {
        Some(word) => {
            let mut buf: Vec<char> = Vec::new();
            push_str(&mut buf, "Query contains forbidden keyword: ");
            push_str(&mut buf, word);
            Err(string_of(&buf))
        },
        None => Ok(()),
    }
}

/// Most rows of a query result that are shown.
pub const MAX_ROWS: usize = 100;

/// Most characters of a text value that are shown.
pub const MAX_TEXT: usize = 100;

/// One value of a result row.
#[derive(Clone, Debug)]
pub enum Cell {
    Null,
    Integer(i64),
    /// A real number, already written as text.
    Real(String),
    Text(String),
    /// A blob of this many bytes.
    Blob(usize),
    /// A value that could not be read.
    Unreadable,
}

/// A value as it is shown: text is cut after [`MAX_TEXT`] characters and a
/// blob is shown by its size.
pub open spec fn cell_text(cell: Cell) -> Seq<char> {
    match cell {
        Cell::Null => "NULL"@,
        Cell::Integer(n) => crate::text::decimal(n as int),
        Cell::Real(text) => text@,
        Cell::Text(text) => if text@.len() > MAX_TEXT {
            text@.take(MAX_TEXT as int) + "..."@
        } else {
            text@
        },
        Cell::Blob(size) => "<blob "@ + nat_digits(size as nat) + " bytes>"@,
        Cell::Unreadable => "?"@,
    }
}

fn push_cell(out: &mut Vec<char>, cell: &Cell)
    ensures
        final(out)@ == old(out)@ + cell_text(*cell),
{
    match cell {
        Cell::Null => push_str(out, "NULL"),
        Cell::Integer(n) => push_decimal(out, *n),
        Cell::Real(text) => push_str(out, text.as_str()),
        Cell::Text(text) => {
            let chars = chars_of(text.as_str());
            if chars.len() > MAX_TEXT {
                let head = slice_of(&chars, 0, MAX_TEXT);
                let ghost start = out@;
                push_all(out, &head);
                push_str(out, "...");
                assert(out@ =~= start + (text@.take(MAX_TEXT as int) + "..."@));
            } else {
                push_all(out, &chars);
            }
        },
        Cell::Blob(size) => {
            let ghost start = out@;
            push_str(out, "<blob ");
            push_unsigned(out, *size as u128);
            push_str(out, " bytes>");
            assert(out@ =~= start + ("<blob "@ + nat_digits(*size as nat) + " bytes>"@));
        },
        Cell::Unreadable => push_str(out, "?"),
    }
}

/// The value of column `i` of a row, or an unreadable one where the row is too short.
pub open spec fn cell_at(cells: Seq<Cell>, i: int) -> Cell {
    if 0 <= i < cells.len() {
        cells[i]
    } else {
        Cell::Unreadable
    }
}

/// The fields of a row as they are shown: `name: value` for every column.
pub open spec fn row_fields(names: Seq<String>, cells: Seq<Cell>) -> Seq<Seq<char>> {
    Seq::new(names.len(), |i: int| names[i]@ + ": "@ + cell_text(cell_at(cells, i)))
}

/// A row as it is shown: its fields, separated by bars.
pub open spec fn row_text(names: Seq<String>, cells: Seq<Cell>) -> Seq<char> {
    joined(row_fields(names, cells), " | "@)
}

/// Formats one row of a query result.
pub fn render_row(names: &Vec<String>, cells: &Vec<Cell>) -> (out: Vec<char>)
    ensures
        out@ == row_text(names@, cells@),
{
    let mut fields: Vec<Vec<char>> = Vec::new();
    let mut i: usize = 0;
    while i < names.len()
        invariant
            i <= names@.len(),
            fields@.len() == i,
            forall|k: int| 0 <= k < i ==> (#[trigger] fields@[k])@ == row_fields(names@, cells@)[k],
        decreases names@.len() - i,
    {
        let mut field: Vec<char> = Vec::new();
        push_str(&mut field, names[i].as_str());
        push_str(&mut field, ": ");
        if i < cells.len() {
            push_cell(&mut field, &cells[i]);
        } else {
            push_str(&mut field, "?");
        }
        assert(field@ =~= names@[i as int]@ + ": "@ + cell_text(cell_at(cells@, i as int)));
        fields.push(field);
        i += 1;
    }
    assert(views(fields@) =~= row_fields(names@, cells@));
    join(&fields, " | ")
}

/// The lines of a query result: the first [`MAX_ROWS`] rows, and a notice
/// when there are more.
pub open spec fn result_lines(names: Seq<String>, rows: Seq<Vec<Cell>>) -> Seq<Seq<char>> {
    if rows.len() > MAX_ROWS {
        Seq::new(MAX_ROWS as nat, |i: int| row_text(names, rows[i]@)).push(
            "... (truncated, showing first 100 rows)"@,
        )
    } else {
        Seq::new(rows.len(), |i: int| row_text(names, rows[i]@))
    }
}

/// A query result as it is shown to the reasoner.
pub open spec fn result_text(names: Seq<String>, rows: Seq<Vec<Cell>>) -> Seq<char> {
    if rows.len() == 0 {
        "No results"@
    } else {
        nat_digits(
            if rows.len() > MAX_ROWS {
                MAX_ROWS as nat
            } else {
                rows.len()
            },
        ) + " row(s):\n"@ + joined(result_lines(names, rows), "\n"@)
    }
}

/// Formats a query result: the number of rows shown, then one line per
/// row. At most [`MAX_ROWS`] rows are shown.
pub fn render_rows(names: &Vec<String>, rows: &Vec<Vec<Cell>>) -> (out: String)
    ensures
        out@ == result_text(names@, rows@),
{
    if rows.len() == 0 {
        return "No results".to_owned();
    }
    let shown: usize = if rows.len() > MAX_ROWS {
        MAX_ROWS
    } else {
        rows.len()
    };
    let mut lines: Vec<Vec<char>> = Vec::new();
    let mut i: usize = 0;
    while i < shown
        invariant
            i <= shown <= rows@.len(),
            lines@.len() == i,
            forall|k: int| 0 <= k < i ==> (#[trigger] lines@[k])@ == row_text(names@, rows@[k]@),
        decreases shown - i,
    {
        lines.push(render_row(names, &rows[i]));
        i += 1;
    }
    if rows.len() > MAX_ROWS {
        lines.push(chars_of("... (truncated, showing first 100 rows)"));
    }
    assert(views(lines@) =~= result_lines(names@, rows@));
    let mut buf: Vec<char> = Vec::new();
    push_unsigned(&mut buf, shown as u128);
    push_str(&mut buf, " row(s):\n");
    let body = join(&lines, "\n");
    push_all(&mut buf, &body);
    string_of(&buf)
}

/// The number of characters that stand for one token.
pub const CHARS_PER_TOKEN: usize = 4;

/// Whether the message `a` is newer than `b`: its timestamp comes later,
/// or the timestamps are the same and its id is the greater one.
/// Timestamps compare as text.
pub open spec fn is_newer(a: ChatMessage, b: ChatMessage) -> bool {
    lex_less(b.timestamp@, a.timestamp@) || (a.timestamp@ == b.timestamp@ && a.message_id
        > b.message_id)
}

/// Tests whether `a` is newer than `b`.
pub fn newer(a: &ChatMessage, b: &ChatMessage) -> (r: bool)
    ensures
        r == is_newer(*a, *b),
{
    let ours = chars_of(a.timestamp.as_str());
    let theirs = chars_of(b.timestamp.as_str());
    less_than(&theirs, &ours) || (same_chars(&ours, &theirs) && a.message_id > b.message_id)
}

/// No message is newer than one that is newer than it.
pub proof fn lemma_newer_is_one_way(a: ChatMessage, b: ChatMessage)
    requires
        is_newer(a, b),
    ensures
        !is_newer(b, a),
{
    lemma_lex_irreflexive(a.timestamp@);
    if lex_less(b.timestamp@, a.timestamp@) && lex_less(a.timestamp@, b.timestamp@) {
        lemma_lex_transitive(a.timestamp@, b.timestamp@, a.timestamp@);
    }
}

/// Where `a` is not newer than `b` and `b` not newer than `c`, `a` is not
/// newer than `c`.
pub proof fn lemma_not_newer_chains(a: ChatMessage, b: ChatMessage, c: ChatMessage)
    requires
        !is_newer(a, b),
        !is_newer(b, c),
    ensures
        !is_newer(a, c),
{
    let (ta, tb, tc) = (a.timestamp@, b.timestamp@, c.timestamp@);
    lemma_lex_total(ta, tb);
    lemma_lex_total(tb, tc);
    lemma_lex_irreflexive(ta);
    lemma_lex_irreflexive(tb);
    lemma_lex_irreflexive(tc);
    if lex_less(ta, tb) && lex_less(tb, tc) {
        lemma_lex_transitive(ta, tb, tc);
    }
    if lex_less(tc, ta) && lex_less(ta, tb) {
        lemma_lex_transitive(tc, ta, tb);
    }
    if lex_less(tb, tc) && lex_less(tc, ta) {
        lemma_lex_transitive(tb, tc, ta);
    }
    if lex_less(ta, tc) && lex_less(tc, ta) {
        lemma_lex_transitive(ta, tc, ta);
    }
}

/// Whether `messages` stand oldest first: no message is newer than one
/// that stands after it.
pub open spec fn is_oldest_first(messages: Seq<ChatMessage>) -> bool {
    forall|i: int, j: int|
        0 <= i < j < messages.len() ==> !is_newer(#[trigger] messages[i], #[trigger] messages[j])
}

/// Arranges the messages oldest first, by timestamp and then by id.
pub fn oldest_first(messages: Vec<ChatMessage>) -> (out: Vec<ChatMessage>)
    ensures
        is_oldest_first(out@),
        out@.to_multiset() == messages@.to_multiset(),
{
    broadcast use vstd::multiset::group_multiset_axioms;

    let ghost all = messages@;
    let mut rest = messages;
    let mut out: Vec<ChatMessage> = Vec::new();
    assert(out@.to_multiset().add(rest@.to_multiset()) =~= all.to_multiset()) by {
        out@.to_multiset_ensures();
    }
    while rest.len() > 0
        invariant
            is_oldest_first(out@),
            out@.to_multiset().add(rest@.to_multiset()) == all.to_multiset(),
        decreases rest@.len(),
    {
        let ghost rest_before = rest@;
        let ghost before = out@;
        let msg = rest.pop().unwrap();
        let mut at: usize = out.len();
        while at > 0 && newer(&out[at - 1], &msg)
            invariant
                at <= out@.len(),
                out@ == before,
                forall|b: int| at <= b < out@.len() ==> is_newer(#[trigger] out@[b], msg),
            decreases at,
        {
            at -= 1;
        }
        proof {
            assert forall|i: int| 0 <= i < at implies !is_newer(#[trigger] before[i], msg) by {
                if i < at - 1 {
                    assert(!is_newer(before[i], before[at - 1]));
                    lemma_not_newer_chains(before[i], before[at - 1], msg);
                }
            }
            assert forall|j: int| at <= j < before.len() implies !is_newer(
                msg,
                #[trigger] before[j],
            ) by {
                lemma_newer_is_one_way(before[j], msg);
            }
        }
        out.insert(at, msg);
        proof {
            assert forall|i: int, j: int| 0 <= i < j < out@.len() implies !is_newer(
                #[trigger] out@[i],
                #[trigger] out@[j],
            ) by {
                if j < at {
                    assert(out@[i] == before[i] && out@[j] == before[j]);
                } else if j == at {
                    assert(out@[i] == before[i]);
                } else if i < at {
                    assert(out@[i] == before[i] && out@[j] == before[j - 1]);
                } else if i == at {
                    assert(out@[j] == before[j - 1]);
                } else {
                    assert(out@[i] == before[i - 1] && out@[j] == before[j - 1]);
                }
            }
            assert(rest_before =~= rest@.push(msg));
            vstd::seq_lib::to_multiset_build(rest@, msg);
            vstd::seq_lib::to_multiset_insert(before, at as int, msg);
            assert(out@.to_multiset().add(rest@.to_multiset()) =~= before.to_multiset().add(
                rest_before.to_multiset(),
            ));
        }
    }
    proof {
        assert(rest@ =~= Seq::<ChatMessage>::empty());
        rest@.to_multiset_ensures();
        assert(out@.to_multiset() =~= all.to_multiset());
    }
    out
}

/// The summed length, in characters, of the renderings of the last `n` of
/// `messages`.
pub open spec fn rendered_len(messages: Seq<ChatMessage>, n: int) -> int
    decreases n,
{
    if n <= 0 {
        0
    } else {
        rendered_len(messages, n - 1) + messages[messages.len() - n].formatted().len()
    }
}

/// Whether the last `n` of `oldest_first` are the longest run of its
/// newest messages that fits into `budget` characters: they fit, and with
/// the next older message they would not.
pub open spec fn is_longest_fit(oldest_first: Seq<ChatMessage>, budget: int, n: int) -> bool {
    &&& 0 <= n <= oldest_first.len()
    &&& rendered_len(oldest_first, n) <= budget
    &&& n < oldest_first.len() ==> rendered_len(oldest_first, n + 1) > budget
}

/// A longer run is at least as long in characters.
pub proof fn lemma_rendered_len_grows(messages: Seq<ChatMessage>, n: int, m: int)
    requires
        0 <= n <= m,
    ensures
        0 <= rendered_len(messages, n) <= rendered_len(messages, m),
    decreases m,
{
    if n < m {
        lemma_rendered_len_grows(messages, n, m - 1);
    } else if n > 0 {
        lemma_rendered_len_grows(messages, n - 1, m - 1);
    }
}

/// No run longer than the longest fit fits the budget, so there is one
/// longest fit only.
pub proof fn lemma_longest_fit(oldest_first: Seq<ChatMessage>, budget: int, n: int, m: int)
    requires
        is_longest_fit(oldest_first, budget, n),
        n < m <= oldest_first.len(),
    ensures
        rendered_len(oldest_first, m) > budget,
        !is_longest_fit(oldest_first, budget, m),
{
    lemma_rendered_len_grows(oldest_first, n + 1, m);
}

/// The last `n` of `messages`.
pub open spec fn newest(messages: Seq<ChatMessage>, n: int) -> Seq<ChatMessage> {
    messages.subrange(messages.len() - n, messages.len() as int)
}

/// Of messages that stand oldest first, selects the longest run of the
/// newest whose renderings together fit a budget of `max_tokens` tokens,
/// at four characters to the token. Where the newest message alone
/// exceeds the budget, none is selected.
pub fn newest_within(oldest_first: Vec<ChatMessage>, max_tokens: usize) -> (recent: Vec<
    ChatMessage,
>)
    ensures
        is_longest_fit(oldest_first@, max_tokens * CHARS_PER_TOKEN, recent@.len() as int),
        recent@ == newest(oldest_first@, recent@.len() as int),
{
    let budget: u128 = (max_tokens as u128) * (CHARS_PER_TOKEN as u128);
    let mut used: u128 = 0;
    let mut taken: usize = 0;
    let mut full = false;
    let total = oldest_first.len();
    while taken < total && !full
        invariant
            taken <= total == oldest_first@.len(),
            budget == max_tokens * CHARS_PER_TOKEN,
            used == rendered_len(oldest_first@, taken as int),
            used <= budget,
            full ==> taken < total && rendered_len(oldest_first@, taken + 1) > budget,
        decreases total - taken + if full { 0int } else { 1int },
    {
        let size = chars_of(oldest_first[total - 1 - taken].format().as_str()).len();
        assert(rendered_len(oldest_first@, taken + 1) == used + size);
        if used + size as u128 > budget {
            full = true;
        } else {
            used = used + size as u128;
            taken += 1;
        }
    }
    let mut older = oldest_first;
    older.split_off(total - taken)
}

/// Whether `recent` holds the most recent of `messages` that fit a budget
/// of `max_tokens` tokens: with the messages arranged by timestamp and
/// then by id, it is the longest run of the newest whose renderings
/// together have at most four characters to the token, oldest first.
pub open spec fn is_recent_within(
    messages: Seq<ChatMessage>,
    max_tokens: int,
    recent: Seq<ChatMessage>,
) -> bool {
    exists|sorted: Seq<ChatMessage>|
        {
            &&& #[trigger] is_oldest_first(sorted)
            &&& sorted.to_multiset() == messages.to_multiset()
            &&& is_longest_fit(sorted, max_tokens * CHARS_PER_TOKEN, recent.len() as int)
            &&& recent == newest(sorted, recent.len() as int)
        }
}

/// Selects the most recent messages whose renderings together fit a
/// budget of `max_tokens` tokens, at four characters to the token: the
/// longest run of the newest messages, by timestamp and then by id, that
/// fits. They are handed back oldest first. Where the newest message
/// alone exceeds the budget, none is handed back.
pub fn get_recent_by_tokens(messages: Vec<ChatMessage>, max_tokens: usize) -> (recent: Vec<
    ChatMessage,
>)
    ensures
        is_recent_within(messages@, max_tokens as int, recent@),
{
    let sorted = oldest_first(messages);
    let ghost arranged = sorted@;
    let recent = newest_within(sorted, max_tokens);
    assert(is_oldest_first(arranged));
    recent
}

/// Which members a listing shows.
#[derive(Clone, Copy, Debug, PartialEq, Eq, Structural)]
pub enum MemberFilter {
    All,
    /// Members who have posted.
    Active,
    /// Members who have not posted since the cutoff, or never.
    Inactive,
    /// Members who have never posted.
    NeverPosted,
    Left,
    Banned,
}

impl MemberFilter {
    /// The filter that `name` names. No name, and any unknown name, shows all.
    pub open spec fn named(name: Option<Seq<char>>) -> MemberFilter {
        match name {
            None => MemberFilter::All,
            Some(n) => if n == "active"@ {
                MemberFilter::Active
            } else if n == "inactive"@ {
                MemberFilter::Inactive
            } else if n == "never_posted"@ {
                MemberFilter::NeverPosted
            } else if n == "left"@ {
                MemberFilter::Left
            } else if n == "banned"@ {
                MemberFilter::Banned
            } else {
                MemberFilter::All
            },
        }
    }

    /// Reads the filter of a member listing.
    pub fn parse(name: Option<&str>) -> (filter: MemberFilter)
        ensures
            filter == Self::named(
                match name {
                    Some(n) => Some(n@),
                    None => None,
                },
            ),
    {
        match name {
            None => MemberFilter::All,
            Some(n) => if str_eq(n, "active") {
                MemberFilter::Active
            } else if str_eq(n, "inactive") {
                MemberFilter::Inactive
            } else if str_eq(n, "never_posted") {
                MemberFilter::NeverPosted
            } else if str_eq(n, "left") {
                MemberFilter::Left
            } else if str_eq(n, "banned") {
                MemberFilter::Banned
            } else {
                MemberFilter::All
            },
        }
    }

    /// Whether the listing shows `member`. `cutoff` is the date before
    /// which a last message counts as inactive; dates compare as text.
    pub open spec fn shows(self, member: Member, cutoff: Seq<char>) -> bool {
        match self {
            MemberFilter::All => true,
            MemberFilter::Active => member.status == MemberStatus::Member
                && member.last_message_date is Some,
            MemberFilter::Inactive => member.status == MemberStatus::Member && match member.last_message_date {
                None => true,
                Some(date) => crate::text::lex_less(date@, cutoff),
            },
            MemberFilter::NeverPosted => member.status == MemberStatus::Member
                && member.last_message_date is None,
            MemberFilter::Left => member.status == MemberStatus::Left,
            MemberFilter::Banned => member.status == MemberStatus::Banned,
        }
    }

    /// Tests whether the listing shows `member`.
    pub fn matches(&self, member: &Member, cutoff: &str) -> (r: bool)
        ensures
            r == self.shows(*member, cutoff@),
    {
        match self {
            MemberFilter::All => true,
            MemberFilter::Active => member.status == MemberStatus::Member
                && member.last_message_date.is_some(),
            MemberFilter::Inactive => member.status == MemberStatus::Member && match &member.last_message_date {
                None => true,
                Some(date) => crate::text::less_than(
                    &chars_of(date.as_str()),
                    &chars_of(cutoff),
                ),
            },
            MemberFilter::NeverPosted => member.status == MemberStatus::Member
                && member.last_message_date.is_none(),
            MemberFilter::Left => member.status == MemberStatus::Left,
            MemberFilter::Banned => member.status == MemberStatus::Banned,
        }
    }

    /// The statement that selects the members of this listing. Its first
    /// parameter is the limit; for the inactive listing the second is the cutoff.
    pub fn statement(&self) -> (sql: &'static str)
        ensures
            sql@ == match self {
                MemberFilter::Active =>
                    "SELECT * FROM users WHERE status = 'member' AND last_message_date IS NOT NULL ORDER BY last_message_date ASC LIMIT ?1"@,
                MemberFilter::Inactive =>
                    "SELECT * FROM users WHERE status = 'member' AND (last_message_date IS NULL OR last_message_date < ?2) ORDER BY COALESCE(last_message_date, join_date) ASC LIMIT ?1"@,
                MemberFilter::NeverPosted =>
                    "SELECT * FROM users WHERE status = 'member' AND last_message_date IS NULL ORDER BY join_date ASC LIMIT ?1"@,
                MemberFilter::Left =>
                    "SELECT * FROM users WHERE status = 'left' ORDER BY join_date ASC LIMIT ?1"@,
                MemberFilter::Banned =>
                    "SELECT * FROM users WHERE status = 'banned' ORDER BY join_date ASC LIMIT ?1"@,
                MemberFilter::All =>
                    "SELECT * FROM users ORDER BY COALESCE(last_message_date, join_date) ASC LIMIT ?1"@,
            },
    {
        match self {
            MemberFilter::Active =>
                "SELECT * FROM users WHERE status = 'member' AND last_message_date IS NOT NULL ORDER BY last_message_date ASC LIMIT ?1",
            MemberFilter::Inactive =>
                "SELECT * FROM users WHERE status = 'member' AND (last_message_date IS NULL OR last_message_date < ?2) ORDER BY COALESCE(last_message_date, join_date) ASC LIMIT ?1",
            MemberFilter::NeverPosted =>
                "SELECT * FROM users WHERE status = 'member' AND last_message_date IS NULL ORDER BY join_date ASC LIMIT ?1",
            MemberFilter::Left =>
                "SELECT * FROM users WHERE status = 'left' ORDER BY join_date ASC LIMIT ?1",
            MemberFilter::Banned =>
                "SELECT * FROM users WHERE status = 'banned' ORDER BY join_date ASC LIMIT ?1",
            MemberFilter::All =>
                "SELECT * FROM users ORDER BY COALESCE(last_message_date, join_date) ASC LIMIT ?1",
        }
    }
}

/// Days without a message after which a member counts as inactive, where
/// the listing names none.
pub const DEFAULT_DAYS_INACTIVE: i64 = 30;

/// Most members that a listing shows, where it names no limit.
pub const DEFAULT_MEMBER_LIMIT: i64 = 50;

} // verus!
