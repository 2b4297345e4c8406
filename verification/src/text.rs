//! Character-level text utilities: conversion between strings and character
//! vectors, substring search and line splitting.

use vstd::prelude::*;

verus! {

/// Appends one character to a string by calling `String::push` of the standard
/// library. Trusted: the new content is the old content followed by `c`.
#[verifier::external_body]
pub(crate) fn push_char(s: &mut String, c: char)
    ensures
        final(s)@ == old(s)@.push(c),
{
    s.push(c);
}

/// The characters of `s`, in order.
pub fn to_chars(s: &str) -> (v: Vec<char>)
    ensures
        v@ == s@,
{
    let mut v: Vec<char> = Vec::new();
    for c in it: s.chars()
        invariant
            v@ == it.seq().take(it.index() as int),
            it.seq() == s@,
    {
        v.push(c);
    }
    v
}

/// The string made of `chars[from..to]`.
pub fn from_chars(chars: &Vec<char>, from: usize, to: usize) -> (s: String)
    requires
        from <= to <= chars.len(),
    ensures
        s@ == chars@.subrange(from as int, to as int),
{
    let mut s = String::new();
    let mut i: usize = from;
    while i < to
        invariant
            from <= i <= to <= chars.len(),
            s@ == chars@.subrange(from as int, i as int),
        decreases to - i,
    {
        push_char(&mut s, chars[i]);
        i += 1;
    }
    s
}

/// A copy of `chars[from..to]`.
pub fn slice_chars(chars: &Vec<char>, from: usize, to: usize) -> (v: Vec<char>)
    requires
        from <= to <= chars.len(),
    ensures
        v@ == chars@.subrange(from as int, to as int),
{
    let mut v: Vec<char> = Vec::new();
    let mut i: usize = from;
    while i < to
        invariant
            from <= i <= to <= chars.len(),
            v@ == chars@.subrange(from as int, i as int),
        decreases to - i,
    {
        v.push(chars[i]);
        i += 1;
    }
    v
}

/// `pattern` stands in `text` at position `at`.
pub open spec fn occurs_at(text: Seq<char>, pattern: Seq<char>, at: int) -> bool {
    &&& 0 <= at
    &&& at + pattern.len() <= text.len()
    &&& text.subrange(at, at + pattern.len()) == pattern
}

/// The first position at or after `from` where `pattern` stands in `text`.
pub open spec fn find_from(text: Seq<char>, pattern: Seq<char>, from: int) -> Option<int>
    decreases text.len() + 1 - from,
{
    if from < 0 || from + pattern.len() > text.len() {
        None
    } else if occurs_at(text, pattern, from) {
        Some(from)
    } else {
        find_from(text, pattern, from + 1)
    }
}

/// `pattern` occurs somewhere in `text`.
pub open spec fn contains_text(text: Seq<char>, pattern: Seq<char>) -> bool {
    find_from(text, pattern, 0) is Some
}

/// What `find_from` returns is an occurrence, and the earliest one.
pub proof fn lemma_find_from(text: Seq<char>, pattern: Seq<char>, from: int)
    requires
        0 <= from,
    ensures
        match find_from(text, pattern, from) {
            Some(p) => from <= p && occurs_at(text, pattern, p) && forall|q: int|
                from <= q < p ==> !occurs_at(text, pattern, q),
            None => forall|q: int| from <= q ==> !occurs_at(text, pattern, q),
        },
    decreases text.len() + 1 - from,
{
    if from + pattern.len() > text.len() {
    } else if occurs_at(text, pattern, from) {
    } else {
        lemma_find_from(text, pattern, from + 1);
    }
}

/// Whether `pattern` stands in `text` at position `at`.
pub fn matches_at(text: &Vec<char>, pattern: &Vec<char>, at: usize) -> (r: bool)
    ensures
        r == occurs_at(text@, pattern@, at as int),
{
    let n = text.len();
    let m = pattern.len();
    if m > n || at > n - m {
        return false;
    }
    let mut j: usize = 0;
    while j < m
        invariant
            m <= n,
            at <= n - m,
            n == text.len(),
            m == pattern.len(),
            j <= m,
            text@.subrange(at as int, at + j) == pattern@.subrange(0, j as int),
        decreases m - j,
    {
        if text[at + j] != pattern[j] {
            assert(text@.subrange(at as int, at + m)[j as int] != pattern@[j as int]);
            return false;
        }
        assert(text@.subrange(at as int, at + j + 1) == text@.subrange(at as int, at + j).push(
            text@[at + j],
        ));
        assert(pattern@.subrange(0, j + 1) == pattern@.subrange(0, j as int).push(pattern@[j as int]));
        j += 1;
    }
    assert(pattern@.subrange(0, m as int) == pattern@);
    true
}

/// The first position at or after `from` where `pattern` stands in `text`.
pub fn find(text: &Vec<char>, pattern: &Vec<char>, from: usize) -> (r: Option<usize>)
    ensures
        match r {
            Some(p) => find_from(text@, pattern@, from as int) == Some(p as int) && from <= p && p
                + pattern.len() <= text.len(),
            None => find_from(text@, pattern@, from as int) is None,
        },
{
    let n = text.len();
    let m = pattern.len();
    if m > n || from > n - m {
        return None;
    }
    let mut pos: usize = from;
    loop
        invariant
            m <= n,
            n == text.len(),
            m == pattern.len(),
            from <= pos <= n - m,
            find_from(text@, pattern@, from as int) == find_from(text@, pattern@, pos as int),
        decreases n - pos,
    {
        if matches_at(text, pattern, pos) {
            return Some(pos);
        }
        if pos == n - m {
            assert(find_from(text@, pattern@, pos + 1) is None);
            return None;
        }
        pos += 1;
    }
}

/// Whether `text` begins with `prefix`.
pub fn starts_with(text: &Vec<char>, prefix: &Vec<char>) -> (r: bool)
    ensures
        r == prefix@.is_prefix_of(text@),
{
    let r = matches_at(text, prefix, 0);
    proof {
        if prefix@.len() <= text@.len() {
            assert(prefix@.is_prefix_of(text@) == (text@.subrange(0, prefix@.len() as int)
                == prefix@));
        }
    }
    r
}

/// The position of the last `c` in `text`, if there is one.
pub open spec fn last_index_of(text: Seq<char>, c: char) -> Option<int>
    decreases text.len(),
{
    if text.len() == 0 {
        None
    } else if text.last() == c {
        Some(text.len() - 1)
    } else {
        last_index_of(text.drop_last(), c)
    }
}

/// What `last_index_of` returns holds `c`, and no later position does.
pub proof fn lemma_last_index_of(text: Seq<char>, c: char)
    ensures
        match last_index_of(text, c) {
            Some(p) => 0 <= p < text.len() && text[p] == c && forall|q: int|
                p < q < text.len() ==> text[q] != c,
            None => forall|q: int| 0 <= q < text.len() ==> text[q] != c,
        },
    decreases text.len(),
{
    if text.len() == 0 {
    } else if text.last() == c {
    } else {
        let front = text.drop_last();
        lemma_last_index_of(front, c);
        assert forall|q: int| 0 <= q < front.len() implies front[q] == text[q] by {}
    }
}

/// The position of the last `c` in `text`, if there is one.
pub fn rfind_char(text: &Vec<char>, c: char) -> (r: Option<usize>)
    ensures
        match r {
            Some(p) => last_index_of(text@, c) == Some(p as int) && p < text.len(),
            None => last_index_of(text@, c) is None,
        },
{
    let mut end: usize = text.len();
    assert(text@.take(end as int) == text@);
    while end > 0
        invariant
            end <= text.len(),
            last_index_of(text@, c) == last_index_of(text@.take(end as int), c),
        decreases end,
    {
        if text[end - 1] == c {
            return Some(end - 1);
        }
        assert(text@.take(end as int).drop_last() == text@.take(end - 1));
        end -= 1;
    }
    assert(text@.take(0).len() == 0);
    None
}

/// The views of a vector of character vectors.
pub open spec fn views(v: Seq<Vec<char>>) -> Seq<Seq<char>> {
    Seq::new(v.len(), |i: int| v[i]@)
}

/// The end of the line that starts at `start`: the position of the next line
/// feed, or the end of the text.
pub open spec fn line_end(text: Seq<char>, start: int) -> int
    decreases text.len() - start,
{
    if start < 0 || start >= text.len() {
        text.len() as int
    } else if text[start] == '\n' {
        start
    } else {
        line_end(text, start + 1)
    }
}

/// A line without its terminator: the text from `start` to `end`, less a
/// carriage return that stands directly before a line feed.
pub open spec fn line_body(text: Seq<char>, start: int, end: int) -> Seq<char> {
    if end < text.len() && start < end && text[end - 1] == '\r' {
        text.subrange(start, end - 1)
    } else {
        text.subrange(start, end)
    }
}

/// The lines of `text` from position `start` on. Lines end at a line feed or at
/// a carriage return followed by a line feed; the last line needs no
/// terminator, and a terminator at the very end opens no further line.
pub open spec fn lines_from(text: Seq<char>, start: int) -> Seq<Seq<char>>
    decreases text.len() + 1 - start,
{
    if start < 0 || start >= text.len() {
        Seq::empty()
    } else {
        let end = line_end(text, start);
        if start <= end <= text.len() {
            seq![line_body(text, start, end)] + lines_from(text, end + 1)
        } else {
            Seq::empty()
        }
    }
}

/// The lines of `text`.
pub open spec fn lines_of(text: Seq<char>) -> Seq<Seq<char>> {
    lines_from(text, 0)
}

pub proof fn lemma_line_end_bounds(text: Seq<char>, start: int)
    requires
        0 <= start <= text.len(),
    ensures
        start <= line_end(text, start) <= text.len(),
        line_end(text, start) < text.len() ==> text[line_end(text, start)] == '\n',
        forall|q: int| start <= q < line_end(text, start) ==> text[q] != '\n',
    decreases text.len() - start,
{
    if start >= text.len() {
    } else if text[start] == '\n' {
    } else {
        lemma_line_end_bounds(text, start + 1);
    }
}

/// The lines of `text`.
pub fn split_lines(text: &Vec<char>) -> (lines: Vec<Vec<char>>)
    ensures
        views(lines@) == lines_of(text@),
{
    let n = text.len();
    let mut lines: Vec<Vec<char>> = Vec::new();
    let mut start: usize = 0;
    while start < n
        invariant
            n == text.len(),
            start <= n,
            lines_of(text@) == views(lines@) + lines_from(text@, start as int),
        decreases n - start,
    {
        let mut end: usize = start;
        while end < n && text[end] != '\n'
            invariant
                n == text.len(),
                start <= end <= n,
                line_end(text@, start as int) == line_end(text@, end as int),
            decreases n - end,
        {
            end += 1;
        }
        proof {
            lemma_line_end_bounds(text@, start as int);
        }
        let body_end: usize = if end < n && start < end && text[end - 1] == '\r' {
            (end - 1) as usize
        } else {
            end
        };
        let line = slice_chars(text, start, body_end);
        proof {
            assert(line@ == line_body(text@, start as int, end as int));
            assert(views(lines@.push(line)) == views(lines@).push(line@));
            assert(views(lines@).push(line@) + lines_from(text@, end + 1) == views(lines@) + (
            seq![line@] + lines_from(text@, end + 1)));
        }
        lines.push(line);
        if end == n {
            assert(lines_from(text@, end + 1) == lines_from(text@, n as int));
            start = n;
        } else {
            start = end + 1;
        }
    }
    proof {
        assert(lines_from(text@, start as int) == Seq::<Seq<char>>::empty());
    }
    lines
}

/// The lower-case form of an ASCII upper-case letter; any other character as it is.
pub open spec fn ascii_lower(c: char) -> char {
    if 'A' <= c && c <= 'Z' {
        ((c as u8) + 32) as char
    } else {
        c
    }
}

/// `text` with each ASCII upper-case letter in lower case.
pub open spec fn ascii_lowercase(text: Seq<char>) -> Seq<char> {
    Seq::new(text.len(), |i: int| ascii_lower(text[i]))
}

/// The lower-case form of an ASCII upper-case letter; any other character as it is.
pub fn to_ascii_lower(c: char) -> (r: char)
    ensures
        r == ascii_lower(c),
{
    if 'A' <= c && c <= 'Z' {
        ((c as u8) + 32) as char
    } else {
        c
    }
}

/// Whether `text` equals `word` once its ASCII upper-case letters are lowered.
pub fn eq_ignore_ascii_case(text: &Vec<char>, word: &Vec<char>) -> (r: bool)
    ensures
        r == (ascii_lowercase(text@) == word@),
{
    if text.len() != word.len() {
        assert(ascii_lowercase(text@).len() != word@.len());
        return false;
    }
    let n = text.len();
    let mut i: usize = 0;
    while i < n
        invariant
            n == text.len(),
            n == word.len(),
            i <= n,
            forall|j: int| 0 <= j < i ==> ascii_lower(text@[j]) == word@[j],
        decreases n - i,
    {
        if to_ascii_lower(text[i]) != word[i] {
            assert(ascii_lowercase(text@)[i as int] != word@[i as int]);
            return false;
        }
        i += 1;
    }
    assert(ascii_lowercase(text@) =~= word@);
    true
}

/// Whether two character vectors hold the same text.
pub fn chars_equal(a: &Vec<char>, b: &Vec<char>) -> (equal: bool)
    ensures
        equal == (a@ == b@),
{
    if a.len() != b.len() {
        return false;
    }
    let mut i: usize = 0;
    while i < a.len()
        invariant
            a.len() == b.len(),
            i <= a.len(),
            a@.subrange(0, i as int) == b@.subrange(0, i as int),
        decreases a.len() - i,
    {
        if a[i] != b[i] {
            return false;
        }
        assert(a@.subrange(0, i + 1) == a@.subrange(0, i as int).push(a@[i as int]));
        assert(b@.subrange(0, i + 1) == b@.subrange(0, i as int).push(b@[i as int]));
        i += 1;
    }
    assert(a@.subrange(0, i as int) == a@);
    assert(b@.subrange(0, i as int) == b@);
    true
}

} // verus!
