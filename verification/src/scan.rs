//! Reading text that tools print: lines, prefixes, searches, tokens, and
//! ordered lists of texts.
//!
//! The functions work on the characters of a text, as `chars_of` hands
//! them over.

use crate::text::{
    is_whitespace, is_whitespace_char, push_char, texts, trimmed, whitespace_end, whitespace_start,
};
use vstd::prelude::*;

verus! {

/// Where the line that starts at `pos` ends: at the first line feed from
/// `pos` on, or at the end of `s`.
pub open spec fn line_end(s: Seq<char>, pos: int) -> int
    decreases s.len() - pos,
{
    if 0 <= pos < s.len() && s[pos] != '\n' {
        line_end(s, pos + 1)
    } else {
        pos
    }
}

/// A line without the carriage return before its line feed.
pub open spec fn strip_cr(line: Seq<char>) -> Seq<char> {
    if line.len() > 0 && line.last() == '\r' {
        line.drop_last()
    } else {
        line
    }
}

/// The lines of `s` from `pos` on. A line ends at a line feed, or at a
/// carriage return followed by a line feed; neither belongs to the line.
/// The last line needs no line ending, and a carriage return at its end
/// stays.
pub open spec fn lines_from(s: Seq<char>, pos: int) -> Seq<Seq<char>>
    decreases s.len() - pos,
{
    if pos < 0 || pos >= s.len() {
        Seq::<Seq<char>>::empty()
    } else {
        let end = line_end(s, pos);
        if end >= s.len() || end < pos {
            seq![s.subrange(pos, s.len() as int)]
        } else {
            seq![strip_cr(s.subrange(pos, end))] + lines_from(s, end + 1)
        }
    }
}

/// The lines of `s`.
pub open spec fn spec_lines(s: Seq<char>) -> Seq<Seq<char>> {
    lines_from(s, 0)
}

/// The texts of a list of character vectors.
pub open spec fn views(list: Seq<Vec<char>>) -> Seq<Seq<char>> {
    Seq::new(list.len(), |i: int| list[i]@)
}

/// The line that starts at `pos` lies inside `s`.
pub proof fn lemma_line_end(s: Seq<char>, pos: int)
    requires
        0 <= pos <= s.len(),
    ensures
        pos <= line_end(s, pos) <= s.len(),
    decreases s.len() - pos,
{
    if pos < s.len() && s[pos] != '\n' {
        lemma_line_end(s, pos + 1);
    }
}

/// A copy of the characters of `v` from `from` up to `to`.
pub fn copy_chars(v: &Vec<char>, from: usize, to: usize) -> (part: Vec<char>)
    requires
        from <= to <= v.len(),
    ensures
        part@ == v@.subrange(from as int, to as int),
{
    let mut part: Vec<char> = Vec::new();
    let mut i: usize = from;
    while i < to
        invariant
            from <= i <= to <= v.len(),
            part@ == v@.subrange(from as int, i as int),
        decreases to - i,
    {
        part.push(v[i]);
        assert(v@.subrange(from as int, i + 1) =~= v@.subrange(from as int, i as int).push(
            v@[i as int],
        ));
        i = i + 1;
    }
    part
}

/// The lines of `chars`.
pub fn lines_of(chars: &Vec<char>) -> (lines: Vec<Vec<char>>)
    ensures
        views(lines@) == spec_lines(chars@),
{
    let mut lines: Vec<Vec<char>> = Vec::new();
    let mut pos: usize = 0;
    assert(views(lines@) =~= Seq::<Seq<char>>::empty());
    while pos < chars.len()
        invariant
            pos <= chars.len(),
            spec_lines(chars@) == views(lines@) + lines_from(chars@, pos as int),
        decreases chars.len() - pos,
    {
        let mut end: usize = pos;
        while end < chars.len() && chars[end] != '\n'
            invariant
                pos <= end <= chars.len(),
                line_end(chars@, pos as int) == line_end(chars@, end as int),
            decreases chars.len() - end,
        {
            end = end + 1;
        }
        let ghost before = views(lines@);
        proof {
            lemma_line_end(chars@, pos as int);
        }
        if end >= chars.len() {
            let line = copy_chars(chars, pos, chars.len());
            lines.push(line);
            assert(views(lines@) =~= before + seq![chars@.subrange(pos as int, chars@.len() as int)]);
            pos = chars.len();
        } else {
            let stop = if end > pos && chars[end - 1] == '\r' {
                end - 1
            } else {
                end
            };
            let line = copy_chars(chars, pos, stop);
            assert(line@ =~= strip_cr(chars@.subrange(pos as int, end as int)));
            lines.push(line);
            assert(views(lines@) =~= before + seq![strip_cr(chars@.subrange(pos as int, end as int))]);
            pos = end + 1;
        }
    }
    assert(views(lines@) + Seq::<Seq<char>>::empty() =~= views(lines@));
    lines
}

/// The characters of `v` without the white space at the start and at the
/// end.
pub fn trim_chars(v: &Vec<char>) -> (inner: Vec<char>)
    ensures
        inner@ == trimmed(v@),
{
    let mut from: usize = 0;
    while from < v.len() && is_whitespace_char(v[from])
        invariant
            from <= v.len(),
            whitespace_end(v@, 0) == whitespace_end(v@, from as int),
        decreases v.len() - from,
    {
        from = from + 1;
    }
    if from >= v.len() {
        return Vec::new();
    }
    let mut to: usize = v.len();
    while to > from + 1 && is_whitespace_char(v[to - 1])
        invariant
            from < to <= v.len(),
            !is_whitespace(v@[from as int]),
            whitespace_start(v@, v@.len() as int) == whitespace_start(v@, to as int),
        decreases to,
    {
        to = to - 1;
    }
    copy_chars(v, from, to)
}

/// Whether `needle` stands in `s` at `pos`.
pub open spec fn occurs_at(s: Seq<char>, needle: Seq<char>, pos: int) -> bool {
    0 <= pos && pos + needle.len() <= s.len() && s.subrange(pos, pos + needle.len()) == needle
}

/// Whether `s` begins with `prefix`.
pub open spec fn starts_with(s: Seq<char>, prefix: Seq<char>) -> bool {
    occurs_at(s, prefix, 0)
}

/// Where `needle` first stands in `s`, from `pos` on; the length of `s`
/// and one more where it stands nowhere.
pub open spec fn first_occurrence(s: Seq<char>, needle: Seq<char>, pos: int) -> int
    decreases s.len() + 1 - pos,
{
    if pos < 0 || pos > s.len() {
        (s.len() + 1) as int
    } else if occurs_at(s, needle, pos) {
        pos
    } else {
        first_occurrence(s, needle, pos + 1)
    }
}

/// Where `needle` first stands in `s`, if anywhere.
pub open spec fn spec_find(s: Seq<char>, needle: Seq<char>) -> Option<int> {
    if first_occurrence(s, needle, 0) <= s.len() {
        Some(first_occurrence(s, needle, 0))
    } else {
        None
    }
}

/// Whether `needle` stands somewhere in `s`.
pub open spec fn contains(s: Seq<char>, needle: Seq<char>) -> bool {
    spec_find(s, needle) is Some
}

/// Whether `needle` stands in `v` at `pos`.
pub fn matches_at(v: &Vec<char>, needle: &Vec<char>, pos: usize) -> (found: bool)
    requires
        pos <= v.len(),
    ensures
        found == occurs_at(v@, needle@, pos as int),
{
    if needle.len() > v.len() - pos {
        return false;
    }
    let mut i: usize = 0;
    while i < needle.len()
        invariant
            i <= needle.len(),
            pos + needle.len() <= v.len(),
            v@.subrange(pos as int, pos + i) == needle@.subrange(0, i as int),
        decreases needle.len() - i,
    {
        if v[pos + i] != needle[i] {
            proof {
                if v@.subrange(pos as int, pos + needle@.len()) == needle@ {
                    assert(v@.subrange(pos as int, pos + needle@.len())[i as int] == needle@[i as int]);
                }
            }
            return false;
        }
        assert(v@.subrange(pos as int, pos + i + 1) =~= v@.subrange(pos as int, pos + i).push(
            v@[pos + i],
        ));
        assert(needle@.subrange(0, i + 1) =~= needle@.subrange(0, i as int).push(needle@[i as int]));
        i = i + 1;
    }
    assert(needle@.subrange(0, needle@.len() as int) =~= needle@);
    true
}

/// Whether `v` begins with `prefix`.
pub fn begins_with(v: &Vec<char>, prefix: &Vec<char>) -> (found: bool)
    ensures
        found == starts_with(v@, prefix@),
{
    matches_at(v, prefix, 0)
}

/// Where `needle` first stands in `v`, if anywhere.
pub fn find(v: &Vec<char>, needle: &Vec<char>) -> (at: Option<usize>)
    ensures
        match at {
            Some(pos) => spec_find(v@, needle@) == Some(pos as int) && pos + needle@.len()
                <= v@.len(),
            None => spec_find(v@, needle@) is None,
        },
{
    find_from(v, needle, 0)
}

/// Whether `needle` stands somewhere in `v`.
pub fn has(v: &Vec<char>, needle: &Vec<char>) -> (found: bool)
    ensures
        found == contains(v@, needle@),
{
    find(v, needle).is_some()
}

/// Where the word that starts at `pos` ends: at the first white space
/// from `pos` on, or at the end of `s`.
pub open spec fn word_end(s: Seq<char>, pos: int) -> int
    decreases s.len() - pos,
{
    if 0 <= pos < s.len() && !is_whitespace(s[pos]) {
        word_end(s, pos + 1)
    } else {
        pos
    }
}

/// The second of the words of `s`, where words are what white space
/// separates; none where `s` has fewer than two words.
pub open spec fn second_word(s: Seq<char>) -> Option<Seq<char>> {
    let first = whitespace_end(s, 0);
    let after_first = word_end(s, first);
    let second = whitespace_end(s, after_first);
    if first < s.len() && second < s.len() {
        Some(s.subrange(second, word_end(s, second)))
    } else {
        None
    }
}

fn skip_white(v: &Vec<char>, pos: usize) -> (end: usize)
    requires
        pos <= v.len(),
    ensures
        end == whitespace_end(v@, pos as int),
        pos <= end <= v.len(),
{
    let mut end: usize = pos;
    while end < v.len() && is_whitespace_char(v[end])
        invariant
            pos <= end <= v.len(),
            whitespace_end(v@, pos as int) == whitespace_end(v@, end as int),
        decreases v.len() - end,
    {
        end = end + 1;
    }
    end
}

fn skip_word(v: &Vec<char>, pos: usize) -> (end: usize)
    requires
        pos <= v.len(),
    ensures
        end == word_end(v@, pos as int),
        pos <= end <= v.len(),
{
    let mut end: usize = pos;
    while end < v.len() && !is_whitespace_char(v[end])
        invariant
            pos <= end <= v.len(),
            word_end(v@, pos as int) == word_end(v@, end as int),
        decreases v.len() - end,
    {
        end = end + 1;
    }
    end
}

/// The second of the words of `v`.
pub fn second_word_of(v: &Vec<char>) -> (word: Option<Vec<char>>)
    ensures
        match word {
            Some(w) => second_word(v@) == Some(w@),
            None => second_word(v@) is None,
        },
{
    let first = skip_white(v, 0);
    if first >= v.len() {
        return None;
    }
    let after_first = skip_word(v, first);
    let second = skip_white(v, after_first);
    if second >= v.len() {
        return None;
    }
    let end = skip_word(v, second);
    Some(copy_chars(v, second, end))
}

/// The text `s` without every `prefix` in a row at its start.
pub open spec fn without_prefixes(s: Seq<char>, prefix: Seq<char>) -> Seq<char>
    decreases s.len(),
{
    if prefix.len() > 0 && starts_with(s, prefix) {
        without_prefixes(s.skip(prefix.len() as int), prefix)
    } else {
        s
    }
}

/// The characters of `v` without every `prefix` in a row at the start.
pub fn strip_prefixes(v: &Vec<char>, prefix: &Vec<char>) -> (rest: Vec<char>)
    ensures
        rest@ == without_prefixes(v@, prefix@),
{
    let mut pos: usize = 0;
    assert(v@.skip(0) =~= v@);
    while prefix.len() > 0 && matches_at(v, prefix, pos)
        invariant
            pos <= v.len(),
            without_prefixes(v@, prefix@) == without_prefixes(v@.skip(pos as int), prefix@),
        decreases v.len() - pos,
    {
        proof {
            let here = v@.skip(pos as int);
            assert(here.subrange(0, prefix@.len() as int) =~= v@.subrange(
                pos as int,
                pos + prefix@.len(),
            ));
            assert(here.skip(prefix@.len() as int) =~= v@.skip(pos + prefix@.len()));
        }
        pos = pos + prefix.len();
    }
    proof {
        let here = v@.skip(pos as int);
        if prefix@.len() > 0 {
            if pos + prefix@.len() <= v@.len() {
                assert(here.subrange(0, prefix@.len() as int) =~= v@.subrange(
                    pos as int,
                    pos + prefix@.len(),
                ));
            }
        }
        assert(here =~= v@.subrange(pos as int, v@.len() as int));
    }
    copy_chars(v, pos, v.len())
}

/// The string of the characters `v`.
pub fn string_of(v: &Vec<char>) -> (s: String)
    ensures
        s@ == v@,
{
    let mut s = String::new();
    let mut i: usize = 0;
    while i < v.len()
        invariant
            i <= v.len(),
            s@ == v@.take(i as int),
        decreases v.len() - i,
    {
        push_char(&mut s, v[i]);
        assert(v@.take(i + 1) =~= v@.take(i as int).push(v@[i as int]));
        i = i + 1;
    }
    assert(v@.take(v@.len() as int) =~= v@);
    s
}

/// Whether the text `a` comes before the text `b` in the order of a
/// dictionary, character by character: at the first place where they
/// differ `a` has the lower character, or `a` ends there and `b` goes on.
pub open spec fn lex_less(a: Seq<char>, b: Seq<char>) -> bool
    decreases a.len(),
{
    if a.len() == 0 {
        b.len() > 0
    } else if b.len() == 0 {
        false
    } else if a[0] != b[0] {
        (a[0] as int) < (b[0] as int)
    } else {
        lex_less(a.skip(1), b.skip(1))
    }
}

/// Of two texts exactly one holds: the first comes before the second, they
/// are the same, or the second comes before the first.
pub proof fn lemma_lex_trichotomy(a: Seq<char>, b: Seq<char>)
    ensures
        lex_less(a, b) || a == b || lex_less(b, a),
        !(lex_less(a, b) && a == b),
        !(lex_less(b, a) && a == b),
        !(lex_less(a, b) && lex_less(b, a)),
    decreases a.len(),
{
    if a.len() == 0 {
        if b.len() == 0 {
            assert(a =~= b);
        }
    } else if b.len() == 0 {
    } else if a[0] != b[0] {
    } else {
        lemma_lex_trichotomy(a.skip(1), b.skip(1));
        if a.skip(1) == b.skip(1) {
            assert(a =~= seq![a[0]] + a.skip(1));
            assert(b =~= seq![b[0]] + b.skip(1));
        }
        if a == b {
            assert(a.skip(1) == b.skip(1));
        }
    }
}

/// What comes before a text that comes before a third comes before the
/// third.
pub proof fn lemma_lex_transitive(a: Seq<char>, b: Seq<char>, c: Seq<char>)
    requires
        lex_less(a, b),
        lex_less(b, c),
    ensures
        lex_less(a, c),
    decreases a.len(),
{
    if a.len() == 0 {
    } else if a[0] != b[0] {
    } else if b[0] != c[0] {
    } else {
        lemma_lex_transitive(a.skip(1), b.skip(1), c.skip(1));
    }
}

/// Whether every text of `list` comes before the one after it: the list
/// is in order and holds no text twice.
pub open spec fn strictly_sorted(list: Seq<Seq<char>>) -> bool {
    forall|i: int, j: int| 0 <= i < j < list.len() ==> lex_less(list[i], list[j])
}

/// How two texts stand to each other in the order.
#[derive(Debug, Clone, Copy, PartialEq, Eq, Structural)]
pub enum Place {
    Before,
    Same,
    After,
}

/// Where `a` stands to `b` in the order.
pub fn place_of(a: &Vec<char>, b: &Vec<char>) -> (place: Place)
    ensures
        place == Place::Before <==> lex_less(a@, b@),
        place == Place::Same <==> a@ == b@,
        place == Place::After <==> lex_less(b@, a@),
{
    let mut i: usize = 0;
    proof {
        lemma_lex_trichotomy(a@, b@);
        assert(a@.skip(0) =~= a@);
        assert(b@.skip(0) =~= b@);
    }
    while i < a.len() && i < b.len()
        invariant
            i <= a.len(),
            i <= b.len(),
            lex_less(a@, b@) == lex_less(a@.skip(i as int), b@.skip(i as int)),
            lex_less(b@, a@) == lex_less(b@.skip(i as int), a@.skip(i as int)),
        decreases a.len() - i,
    {
        let x = a[i];
        let y = b[i];
        proof {
            assert(a@.skip(i as int)[0] == x);
            assert(b@.skip(i as int)[0] == y);
            assert(a@.skip(i as int).skip(1) =~= a@.skip(i + 1));
            assert(b@.skip(i as int).skip(1) =~= b@.skip(i + 1));
        }
        if x < y {
            return Place::Before;
        }
        if y < x {
            return Place::After;
        }
        i = i + 1;
    }
    if i < b.len() {
        Place::Before
    } else if i < a.len() {
        Place::After
    } else {
        Place::Same
    }
}

/// Puts `item` at its place in the ordered list, unless the list holds
/// it already.
pub fn insert_sorted(list: &mut Vec<Vec<char>>, item: Vec<char>)
    requires
        strictly_sorted(views(old(list)@)),
    ensures
        strictly_sorted(views(final(list)@)),
        forall|x: Seq<char>|
            views(final(list)@).contains(x) <==> (views(old(list)@).contains(x) || x == item@),
{
    let ghost before = views(list@);
    let mut pos: usize = 0;
    let mut reached = false;
    while pos < list.len() && !reached
        invariant
            pos <= list.len(),
            list@ == old(list)@,
            before == views(list@),
            strictly_sorted(before),
            forall|i: int| 0 <= i < pos ==> lex_less(#[trigger] before[i], item@),
            reached ==> pos < list.len() && lex_less(item@, before[pos as int]),
        decreases list.len() - pos, (if reached { 0int } else { 1int }),
    {
        match place_of(&list[pos], &item) {
            Place::Before => {
                pos = pos + 1;
            },
            Place::Same => {
                proof {
                    assert(before[pos as int] == item@);
                    assert forall|x: Seq<char>| views(list@).contains(x) <==> (before.contains(x)
                        || x == item@) by {
                        if x == item@ {
                            assert(views(list@)[pos as int] == x);
                        }
                    }
                }
                return ;
            },
            Place::After => {
                reached = true;
            },
        }
    }
    list.insert(pos, item);
    proof {
        let after = views(list@);
        assert(after.len() == before.len() + 1);
        assert(after[pos as int] == item@);
        assert forall|i: int| 0 <= i < pos implies after[i] == before[i] by {}
        assert forall|i: int| pos < i < after.len() implies after[i] == before[i - 1] by {}
        assert forall|i: int, j: int| 0 <= i < j < after.len() implies lex_less(
            after[i],
            after[j],
        ) by {
            if j < pos {
            } else if j == pos {
            } else if i == pos {
                if j - 1 > pos {
                    lemma_lex_transitive(item@, before[pos as int], before[j - 1]);
                }
            } else if i < pos {
                lemma_lex_transitive(before[i], item@, before[pos as int]);
                if j - 1 > pos {
                    lemma_lex_transitive(before[i], before[pos as int], before[j - 1]);
                }
            } else {
            }
        }
        assert forall|x: Seq<char>| after.contains(x) <==> (before.contains(x) || x
            == item@) by {
            if after.contains(x) {
                let i = choose|i: int| 0 <= i < after.len() && after[i] == x;
                if i < pos {
                    assert(before[i] == x);
                } else if i > pos {
                    assert(before[i - 1] == x);
                }
            }
            if before.contains(x) {
                let i = choose|i: int| 0 <= i < before.len() && before[i] == x;
                if i < pos {
                    assert(after[i] == x);
                } else {
                    assert(after[i + 1] == x);
                }
            }
            if x == item@ {
                assert(after[pos as int] == x);
            }
        }
    }
}

/// The texts of `items` in order, each once.
pub fn sorted_unique(items: Vec<Vec<char>>) -> (list: Vec<Vec<char>>)
    ensures
        strictly_sorted(views(list@)),
        forall|x: Seq<char>| views(list@).contains(x) <==> views(items@).contains(x),
{
    let mut list: Vec<Vec<char>> = Vec::new();
    let mut i: usize = 0;
    while i < items.len()
        invariant
            i <= items.len(),
            strictly_sorted(views(list@)),
            forall|x: Seq<char>|
                views(list@).contains(x) <==> views(items@).take(i as int).contains(x),
        decreases items.len() - i,
    {
        let ghost before = views(list@);
        let item = copy_chars(&items[i], 0, items[i].len());
        assert(item@ =~= items@[i as int]@);
        insert_sorted(&mut list, item);
        proof {
            let done = views(items@).take(i as int);
            let next = views(items@).take(i + 1);
            assert(next =~= done.push(items@[i as int]@));
            assert forall|x: Seq<char>| views(list@).contains(x) <==> next.contains(x) by {
                if next.contains(x) {
                    let k = choose|k: int| 0 <= k < next.len() && next[k] == x;
                    if k < i {
                        assert(done[k] == x);
                    }
                }
                if done.contains(x) {
                    let k = choose|k: int| 0 <= k < done.len() && done[k] == x;
                    assert(next[k] == x);
                }
                if x == items@[i as int]@ {
                    assert(next[i as int] == x);
                }
            }
        }
        i = i + 1;
    }
    assert(views(items@).take(items@.len() as int) =~= views(items@));
    list
}

/// The strings of the texts `list`.
pub fn strings_of(list: &Vec<Vec<char>>) -> (strings: Vec<String>)
    ensures
        texts(strings@) == views(list@),
{
    let mut strings: Vec<String> = Vec::new();
    let mut i: usize = 0;
    while i < list.len()
        invariant
            i <= list.len(),
            texts(strings@) == views(list@).take(i as int),
        decreases list.len() - i,
    {
        let ghost done = texts(strings@);
        strings.push(string_of(&list[i]));
        assert(texts(strings@) =~= done.push(list@[i as int]@));
        assert(views(list@).take(i + 1) =~= views(list@).take(i as int).push(list@[i as int]@));
        i = i + 1;
    }
    assert(views(list@).take(list@.len() as int) =~= views(list@));
    strings
}

/// The pieces of `s` from `pos` on that `sep` separates, found from left
/// to right. An empty `sep` separates nothing.
pub open spec fn split_from(s: Seq<char>, sep: Seq<char>, pos: int) -> Seq<Seq<char>>
    decreases s.len() - pos,
{
    let next = first_occurrence(s, sep, pos);
    if sep.len() == 0 || pos < 0 || next < pos || next + sep.len() > s.len() {
        seq![s.subrange(pos, s.len() as int)]
    } else {
        seq![s.subrange(pos, next)] + split_from(s, sep, next + sep.len())
    }
}

/// The pieces of `s` that `sep` separates.
pub open spec fn spec_split(s: Seq<char>, sep: Seq<char>) -> Seq<Seq<char>> {
    split_from(s, sep, 0)
}

/// Whatever is split, there is at least one piece.
pub proof fn lemma_split_is_not_empty(s: Seq<char>, sep: Seq<char>, pos: int)
    ensures
        split_from(s, sep, pos).len() >= 1,
{
}

/// Where `needle` first stands in `v` from `from` on, if anywhere.
pub fn find_from(v: &Vec<char>, needle: &Vec<char>, from: usize) -> (at: Option<usize>)
    requires
        from <= v.len(),
    ensures
        match at {
            Some(pos) => first_occurrence(v@, needle@, from as int) == pos && from <= pos
                && pos + needle@.len() <= v@.len(),
            None => first_occurrence(v@, needle@, from as int) > v@.len(),
        },
{
    let mut pos: usize = from;
    while pos <= v.len()
        invariant
            from <= pos <= v.len() + 1,
            first_occurrence(v@, needle@, from as int) == first_occurrence(
                v@,
                needle@,
                pos as int,
            ),
        decreases v.len() + 1 - pos,
    {
        if matches_at(v, needle, pos) {
            return Some(pos);
        }
        if pos == v.len() {
            proof {
                assert(first_occurrence(v@, needle@, (v@.len() + 1) as int) == v@.len() + 1);
            }
            return None;
        }
        pos = pos + 1;
    }
    None
}

/// The pieces of `v` that `sep` separates.
pub fn split(v: &Vec<char>, sep: &Vec<char>) -> (pieces: Vec<Vec<char>>)
    ensures
        views(pieces@) == spec_split(v@, sep@),
{
    let mut pieces: Vec<Vec<char>> = Vec::new();
    let mut pos: usize = 0;
    assert(views(pieces@) =~= Seq::<Seq<char>>::empty());
    loop
        invariant
            pos <= v.len(),
            spec_split(v@, sep@) == views(pieces@) + split_from(v@, sep@, pos as int),
        decreases v.len() - pos,
    {
        let ghost before = views(pieces@);
        let next = if sep.len() == 0 {
            None
        } else {
            find_from(v, sep, pos)
        };
        match next {
            Some(at) => {
                pieces.push(copy_chars(v, pos, at));
                assert(views(pieces@) =~= before.push(v@.subrange(pos as int, at as int)));
                assert(before + (seq![v@.subrange(pos as int, at as int)] + split_from(
                    v@,
                    sep@,
                    at + sep@.len(),
                )) =~= before.push(v@.subrange(pos as int, at as int)) + split_from(
                    v@,
                    sep@,
                    at + sep@.len(),
                ));
                pos = at + sep.len();
            },
            None => {
                pieces.push(copy_chars(v, pos, v.len()));
                assert(views(pieces@) =~= before + seq![v@.subrange(pos as int, v@.len() as int)]);
                return pieces;
            },
        }
    }
}

} // verus!
