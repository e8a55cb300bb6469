//! The scratch-memory tools: a sandboxed file tree below `memories/`.
//!
//! This module holds what the tools decide on plain text: which paths are
//! acceptable, how a file is shown, edited and searched. Reading and writing
//! the files is left to the caller.

use crate::order::{arranged, is_text_order, text_order};
use crate::text::{
    chars_of, contains, contains_sub, find_from, has_prefix, is_sub_at, join, joined, lines,
    lines_of, nat_digits, push_all, push_str, push_unsigned, slice_of, starts_with, str_eq,
    string_of, text_result, views,
};
use vstd::prelude::*;

verus! {

/// Why a relative path is refused, if it is.
pub open spec fn path_fault(path: Seq<char>) -> Option<Seq<char>> {
    if contains_sub(path, ".."@) {
        Some("Path cannot contain '..'"@)
    } else if has_prefix(path, "/"@) || has_prefix(path, "\\"@) {
        Some("Path must be relative"@)
    } else if path.len() == 0 {
        Some("Path cannot be empty"@)
    } else {
        None
    }
}

/// Whether a relative path may be resolved below the memory root: it is not
/// empty, does not start with a separator and holds no `..`.
pub open spec fn path_is_safe(path: Seq<char>) -> bool {
    &&& !contains_sub(path, ".."@)
    &&& !has_prefix(path, "/"@)
    &&& !has_prefix(path, "\\"@)
    &&& path.len() > 0
}

/// Checks a path given to a memory tool before anything touches the file
/// system. A path that is empty, starts with `/` or `\`, or contains `..`
/// is refused.
pub fn check_memory_path(relative_path: &str) -> (r: Result<(), String>)
    ensures
        r is Ok <==> path_is_safe(relative_path@),
        match r {
            Ok(()) => path_fault(relative_path@) is None,
            Err(e) => path_fault(relative_path@) == Some(e@),
        },
{
    let path = chars_of(relative_path);
    if contains(&path, &chars_of("..")) {
        return Err("Path cannot contain '..'".to_owned());
    }
    if starts_with(&path, &chars_of("/")) || starts_with(&path, &chars_of("\\")) {
        return Err("Path must be relative".to_owned());
    }
    if path.len() == 0 {
        return Err("Path cannot be empty".to_owned());
    }
    Ok(())
}

/// The memory files that were read in the current turn.
pub struct FilesRead {
    paths: Vec<String>,
}

impl View for FilesRead {
    type V = Set<Seq<char>>;

    closed spec fn view(&self) -> Set<Seq<char>> {
        Set::new(|p: Seq<char>| exists|i: int| 0 <= i < self.paths@.len() && self.paths@[i]@ == p)
    }
}

impl FilesRead {
    /// No file has been read.
    pub fn new() -> (files: Self)
        ensures
            files@ == Set::<Seq<char>>::empty(),
    {
        let files = Self { paths: Vec::new() };
        assert(files@ =~= Set::<Seq<char>>::empty());
        files
    }

    /// Tests whether `path` was read in this turn.
    pub fn contains(&self, path: &str) -> (r: bool)
        ensures
            r == self@.contains(path@),
    {
        let mut i: usize = 0;
        while i < self.paths.len()
            invariant
                i <= self.paths@.len(),
                forall|k: int| 0 <= k < i ==> self.paths@[k]@ != path@,
            decreases self.paths@.len() - i,
        {
            if str_eq(self.paths[i].as_str(), path) {
                return true;
            }
            i += 1;
        }
        false
    }

    /// Records that `path` was read.
    pub fn insert(&mut self, path: &str)
        ensures
            final(self)@ == old(self)@.insert(path@),
    {
        self.paths.push(path.to_owned());
        proof {
            let before = old(self).paths@;
            let after = self.paths@;
            assert forall|p: Seq<char>| final(self)@.contains(p) <==> old(self)@.insert(
                path@,
            ).contains(p) by {
                if final(self)@.contains(p) {
                    let i = choose|i: int| 0 <= i < after.len() && after[i]@ == p;
                    if i < before.len() {
                        assert(before[i]@ == p);
                    }
                }
                if old(self)@.contains(p) {
                    let i = choose|i: int| 0 <= i < before.len() && before[i]@ == p;
                    assert(after[i]@ == p);
                }
                if p == path@ {
                    assert(after[before.len() as int]@ == p);
                }
            }
            assert(final(self)@ =~= old(self)@.insert(path@));
        }
    }
}

/// What editing the file `path` is refused with when it was not read first.
pub open spec fn unread_fault(path: Seq<char>) -> Seq<char> {
    "Must read_memory('"@ + path + "') before editing"@
}

/// Checks that the file was read in this turn before it is edited.
pub fn check_was_read(files_read: &FilesRead, path: &str) -> (r: Result<(), String>)
    ensures
        r is Ok <==> files_read@.contains(path@),
        r matches Err(e) ==> e@ == unread_fault(path@),
{
    if files_read.contains(path) {
        Ok(())
    } else {
        let mut buf: Vec<char> = Vec::new();
        push_str(&mut buf, "Must read_memory('");
        push_str(&mut buf, path);
        push_str(&mut buf, "') before editing");
        Err(string_of(&buf))
    }
}

/// The line number `n` as it is shown: right-aligned in five columns.
pub open spec fn line_number(n: nat) -> Seq<char> {
    let digits = nat_digits(n);
    if digits.len() < 5 {
        Seq::new((5 - digits.len()) as nat, |i: int| ' ') + digits
    } else {
        digits
    }
}

/// Line `n` of a file as it is shown: its number, an arrow, its text.
pub open spec fn numbered_line(n: nat, line: Seq<char>) -> Seq<char> {
    line_number(n) + seq!['→'] + line
}

/// The lines `all` as they are shown, the first `count` of them, numbered from 1.
pub open spec fn numbered_upto(all: Seq<Seq<char>>, count: int) -> Seq<char>
    decreases count,
{
    if count <= 0 {
        Seq::empty()
    } else if count == 1 {
        numbered_line(1, all[0])
    } else {
        numbered_upto(all, count - 1) + seq!['\n'] + numbered_line(count as nat, all[count - 1])
    }
}

/// The content of a file as it is shown to the reasoner: every line with its number.
pub open spec fn numbered(content: Seq<char>) -> Seq<char> {
    numbered_upto(lines_of(content), lines_of(content).len() as int)
}

fn push_line_number(out: &mut Vec<char>, n: usize)
    ensures
        final(out)@ == old(out)@ + line_number(n as nat),
{
    let mut digits: Vec<char> = Vec::new();
    push_unsigned(&mut digits, n as u128);
    let ghost start = out@;
    if digits.len() < 5 {
        let pad = 5 - digits.len();
        let mut i: usize = 0;
        while i < pad
            invariant
                i <= pad,
                out@ == start + Seq::new(i as nat, |k: int| ' '),
            decreases pad - i,
        {
            out.push(' ');
            assert(out@ =~= start + Seq::new((i + 1) as nat, |k: int| ' '));
            i += 1;
        }
    } else {
        assert(out@ =~= start + Seq::<char>::empty());
    }
    push_all(out, &digits);
    proof {
        if digits@.len() < 5 {
            assert(out@ =~= start + (Seq::new((5 - digits@.len()) as nat, |k: int| ' ')
                + digits@));
        } else {
            assert(out@ =~= start + digits@);
        }
    }
}

/// Formats the content of a file with line numbers.
pub fn number_lines(content: &str) -> (out: String)
    ensures
        out@ == numbered(content@),
{
    let all = lines(&chars_of(content));
    let mut buf: Vec<char> = Vec::new();
    let mut i: usize = 0;
    while i < all.len()
        invariant
            i <= all@.len(),
            views(all@) == lines_of(content@),
            buf@ == numbered_upto(views(all@), i as int),
        decreases all@.len() - i,
    {
        let ghost before = buf@;
        if i > 0 {
            buf.push('\n');
        }
        push_line_number(&mut buf, i + 1);
        buf.push('→');
        push_all(&mut buf, &all[i]);
        proof {
            let line = views(all@)[i as int];
            assert(line == all@[i as int]@);
            if i == 0 {
                assert(buf@ =~= numbered_line(1, line));
            } else {
                assert(buf@ =~= before + seq!['\n'] + numbered_line((i + 1) as nat, line));
            }
        }
        i += 1;
    }
    string_of(&buf)
}

/// The first position at or after `from` where `needle` occurs in `hay`, or
/// -1 where there is none.
pub open spec fn first_match(hay: Seq<char>, needle: Seq<char>, from: int) -> int
    decreases hay.len() - from,
{
    if from < 0 || from + needle.len() > hay.len() {
        -1
    } else if is_sub_at(hay, needle, from) {
        from
    } else if from >= hay.len() {
        -1
    } else {
        first_match(hay, needle, from + 1)
    }
}

/// How far a search moves on after a match at `at`: past the match, and by
/// one position for an empty needle.
pub open spec fn past_match(needle: Seq<char>, at: int) -> int {
    if needle.len() == 0 {
        at + 1
    } else {
        at + needle.len()
    }
}

/// The number of matches of `needle` in `hay` at or after `from` that do
/// not overlap, counted from the left.
pub open spec fn occurrences(hay: Seq<char>, needle: Seq<char>, from: int) -> nat
    decreases hay.len() - from + 1,
{
    let at = first_match(hay, needle, from);
    if from < 0 || at < from || at + needle.len() > hay.len() {
        0
    } else {
        1 + occurrences(hay, needle, past_match(needle, at))
    }
}

/// `hay` with the match of `needle` at `at` replaced by `with`.
pub open spec fn replaced_at(hay: Seq<char>, needle: Seq<char>, with: Seq<char>, at: int) -> Seq<
    char,
> {
    hay.subrange(0, at) + with + hay.subrange(at + needle.len(), hay.len() as int)
}

/// What an edit gives: the new content when `old_string` occurs exactly
/// once, else the reason for the refusal.
pub open spec fn edited_text(content: Seq<char>, old_string: Seq<char>, new_string: Seq<char>) -> Result<
    Seq<char>,
    Seq<char>,
> {
    let count = occurrences(content, old_string, 0);
    if count == 0 {
        Err("old_string not found in file. Make sure it matches exactly."@)
    } else if count > 1 {
        Err("old_string found "@ + nat_digits(count) + " times. Must be unique."@)
    } else {
        Ok(replaced_at(content, old_string, new_string, first_match(content, old_string, 0)))
    }
}

/// `first_match` finds `found` when no earlier position from `from` on matches.
pub proof fn lemma_first_match(hay: Seq<char>, needle: Seq<char>, from: int, found: int)
    requires
        0 <= from,
        from <= found ==> is_sub_at(hay, needle, found),
        forall|j: int| from <= j < found ==> !is_sub_at(hay, needle, j),
        found < from ==> forall|j: int| from <= j ==> !is_sub_at(hay, needle, j),
    ensures
        first_match(hay, needle, from) == if from <= found {
            found
        } else {
            -1
        },
    decreases hay.len() - from,
{
    if from + needle.len() > hay.len() {
        if from <= found {
            assert(is_sub_at(hay, needle, found));
        }
    } else if is_sub_at(hay, needle, from) {
    } else if from >= hay.len() {
        assert(hay.subrange(from, from + needle.len()) =~= needle);
    } else {
        lemma_first_match(hay, needle, from + 1, found);
    }
}

fn search(hay: &Vec<char>, needle: &Vec<char>, from: usize) -> (r: Option<usize>)
    ensures
        match r {
            Some(at) => {
                &&& first_match(hay@, needle@, from as int) == at
                &&& from <= at
                &&& at + needle@.len() <= hay@.len()
            },
            None => first_match(hay@, needle@, from as int) == -1,
        },
{
    let r = find_from(hay, needle, from);
    proof {
        match r {
            Some(at) => lemma_first_match(hay@, needle@, from as int, at as int),
            None => lemma_first_match(hay@, needle@, from as int, -1),
        }
    }
    r
}

fn count_matches(hay: &Vec<char>, needle: &Vec<char>) -> (n: u128)
    ensures
        n == occurrences(hay@, needle@, 0),
{
    let mut n: u128 = 0;
    let mut from: usize = 0;
    let total = hay.len();
    loop
        invariant
            total == hay@.len(),
            from <= hay@.len(),
            n <= from,
            n + occurrences(hay@, needle@, from as int) == occurrences(hay@, needle@, 0),
        decreases hay@.len() - from,
    {
        match search(hay, needle, from) {
            Some(at) => {
                n += 1;
                if needle.len() == 0 {
                    if at == total {
                        assert(occurrences(hay@, needle@, at + 1) == 0);
                        return n;
                    }
                    from = at + 1;
                } else {
                    from = at + needle.len();
                }
            },
            None => {
                return n;
            },
        }
    }
}

/// Replaces `old_string` by `new_string` in `content`. The edit is refused
/// unless `old_string` occurs exactly once.
pub fn edit_once(content: &str, old_string: &str, new_string: &str) -> (r: Result<String, String>)
    ensures
        text_result(r) == edited_text(content@, old_string@, new_string@),
{
    let hay = chars_of(content);
    let needle = chars_of(old_string);
    match search(&hay, &needle, 0) {
        None => Err("old_string not found in file. Make sure it matches exactly.".to_owned()),
        Some(at) => {
            let count = count_matches(&hay, &needle);
            if count > 1 {
                let mut buf: Vec<char> = Vec::new();
                push_str(&mut buf, "old_string found ");
                push_unsigned(&mut buf, count);
                push_str(&mut buf, " times. Must be unique.");
                Err(string_of(&buf))
            } else {
                let total = hay.len();
                let mut buf = slice_of(&hay, 0, at);
                push_str(&mut buf, new_string);
                let tail = slice_of(&hay, at + needle.len(), total);
                push_all(&mut buf, &tail);
                Ok(string_of(&buf))
            }
        },
    }
}

/// One match of a search: the file, the line number and the line.
pub open spec fn match_line(file: Seq<char>, n: nat, line: Seq<char>) -> Seq<char> {
    file + seq![':'] + nat_digits(n) + seq![':'] + line
}

/// The matches among the first `count` lines of a file.
pub open spec fn matches_upto(
    file: Seq<char>,
    all: Seq<Seq<char>>,
    pattern: Seq<char>,
    count: int,
) -> Seq<Seq<char>>
    decreases count,
{
    if count <= 0 {
        Seq::empty()
    } else if contains_sub(all[count - 1], pattern) {
        matches_upto(file, all, pattern, count - 1).push(
            match_line(file, count as nat, all[count - 1]),
        )
    } else {
        matches_upto(file, all, pattern, count - 1)
    }
}

/// Searches the content of one file: every line that contains `pattern`
/// gives one match of the form `file:line number:line`.
pub fn search_file(file: &str, content: &str, pattern: &str) -> (found: Vec<String>)
    ensures
        crate::text::texts(found@) == matches_upto(
            file@,
            lines_of(content@),
            pattern@,
            lines_of(content@).len() as int,
        ),
{
    let all = lines(&chars_of(content));
    let needle = chars_of(pattern);
    let mut found: Vec<String> = Vec::new();
    let mut i: usize = 0;
    assert(crate::text::texts(found@) =~= Seq::<Seq<char>>::empty());
    while i < all.len()
        invariant
            i <= all@.len(),
            needle@ == pattern@,
            views(all@) == lines_of(content@),
            crate::text::texts(found@) == matches_upto(file@, views(all@), pattern@, i as int),
        decreases all@.len() - i,
    {
        let ghost before = crate::text::texts(found@);
        assert(views(all@)[i as int] == all@[i as int]@);
        if contains(&all[i], &needle) {
            let mut buf: Vec<char> = Vec::new();
            push_str(&mut buf, file);
            buf.push(':');
            push_unsigned(&mut buf, (i + 1) as u128);
            buf.push(':');
            push_all(&mut buf, &all[i]);
            assert(buf@ =~= match_line(file@, (i + 1) as nat, all@[i as int]@));
            found.push(string_of(&buf));
            assert(crate::text::texts(found@) =~= before.push(buf@));
        }
        i += 1;
    }
    found
}

/// How a listing shows an entry of a directory: a directory ends in `/`.
pub open spec fn entry_label(name: Seq<char>, is_dir: bool) -> Seq<char> {
    if is_dir {
        name + seq!['/']
    } else {
        name
    }
}

/// The labels of the entries of a directory, each a name and whether it
/// is a directory.
pub open spec fn entry_labels(entries: Seq<(String, bool)>) -> Seq<Seq<char>> {
    entries.map_values(|e: (String, bool)| entry_label(e.0@, e.1))
}

/// Whether `out` lists the entries by label, one to a line.
pub open spec fn is_listing(entries: Seq<(String, bool)>, out: Seq<char>) -> bool {
    exists|order: Seq<usize>| #[trigger]
        is_text_order(entry_labels(entries), order) && out == joined(
            arranged(entry_labels(entries), order),
            seq!['\n'],
        )
}

/// Lists the entries of a directory, sorted, one to a line. Each entry is
/// a name and whether it is a directory.
pub fn listing(entries: &Vec<(String, bool)>) -> (out: String)
    ensures
        is_listing(entries@, out@),
{
    let mut labels: Vec<Vec<char>> = Vec::new();
    let mut i: usize = 0;
    while i < entries.len()
        invariant
            i <= entries@.len(),
            labels@.len() == i,
            views(labels@) == entry_labels(entries@).take(i as int),
        decreases entries@.len() - i,
    {
        let ghost before = labels@;
        let mut label = chars_of(entries[i].0.as_str());
        if entries[i].1 {
            label.push('/');
        }
        labels.push(label);
        proof {
            let target = entry_labels(entries@).take(i + 1);
            assert(label@ == entry_label(entries@[i as int].0@, entries@[i as int].1));
            assert forall|k: int| 0 <= k < i + 1 implies views(labels@)[k] == target[k] by {
                if k < i {
                    assert(views(before)[k] == entry_labels(entries@).take(i as int)[k]);
                    assert(labels@[k] == before[k]);
                }
            }
            assert(views(labels@) =~= target);
        }
        i += 1;
    }
    assert(views(labels@) =~= entry_labels(entries@));
    let order = text_order(&labels);
    let mut sorted: Vec<Vec<char>> = Vec::new();
    let mut a: usize = 0;
    while a < order.len()
        invariant
            a <= order@.len(),
            sorted@.len() == a,
            labels@.len() == entries@.len(),
            views(labels@) == entry_labels(entries@),
            is_text_order(entry_labels(entries@), order@),
            views(sorted@) == arranged(entry_labels(entries@), order@).take(a as int),
        decreases order@.len() - a,
    {
        let at = order[a];
        let ghost before = sorted@;
        let label = labels[at].clone();
        assert(label@ == labels@[at as int]@);
        sorted.push(label);
        proof {
            let target = arranged(entry_labels(entries@), order@).take(a + 1);
            assert(views(labels@)[at as int] == labels@[at as int]@);
            assert forall|k: int| 0 <= k < a + 1 implies views(sorted@)[k] == target[k] by {
                if k < a {
                    assert(views(before)[k] == arranged(entry_labels(entries@), order@).take(
                        a as int,
                    )[k]);
                    assert(sorted@[k] == before[k]);
                }
            }
            assert(views(sorted@) =~= target);
        }
        a += 1;
    }
    assert(views(sorted@) =~= arranged(entry_labels(entries@), order@));
    let out = join(&sorted, "\n");
    proof {
        reveal_strlit("\n");
        assert("\n"@ =~= seq!['\n']);
    }
    string_of(&out)
}

/// What a search answers: the matches, one to a line, or that there is none.
pub open spec fn search_text(matches: Seq<Seq<char>>) -> Seq<char> {
    if matches.len() == 0 {
        "No matches found"@
    } else {
        joined(matches, seq!['\n'])
    }
}

/// The answer of a search with the given matches.
pub fn search_answer(matches: &Vec<String>) -> (out: String)
    ensures
        out@ == search_text(crate::text::texts(matches@)),
{
    if matches.len() == 0 {
        "No matches found".to_owned()
    } else {
        let out = crate::text::join_strings(matches, "\n");
        proof {
            reveal_strlit("\n");
            assert("\n"@ =~= seq!['\n']);
        }
        string_of(&out)
    }
}

} // verus!
