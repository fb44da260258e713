//! Character-level text primitives: conversion between strings and
//! character vectors, case folding, prefix and substring tests.

use vstd::prelude::*;

verus! {

/// The lower-case form of `text`, as `str::to_lowercase` produces it.
pub uninterp spec fn lowercased(text: Seq<char>) -> Seq<char>;

/// Whether `c` has the Unicode `Alphabetic` property, as `char::is_alphabetic` reports it.
pub uninterp spec fn alphabetic(c: char) -> bool;

/// `str::to_lowercase`: the result is the lower-case form of the argument and
/// depends on the argument's characters alone.
pub assume_specification[ str::to_lowercase ](s: &str) -> (r: String)
    ensures
        r@ == lowercased(s@),
;

/// `char::is_alphabetic`: the answer depends on the character alone.
pub assume_specification[ char::is_alphabetic ](c: char) -> (r: bool)
    ensures
        r == alphabetic(c),
;

/// `String::push`: appends exactly one character at the end.
pub assume_specification[ String::push ](s: &mut String, c: char)
    ensures
        final(s)@ == old(s)@.push(c),
;

/// `needle` stands in `text` at position `at`.
pub open spec fn occurs_at(needle: Seq<char>, text: Seq<char>, at: int) -> bool {
    &&& 0 <= at
    &&& at + needle.len() <= text.len()
    &&& text.subrange(at, at + needle.len()) == needle
}

/// `needle` stands somewhere in `text`.
pub open spec fn occurs_in(needle: Seq<char>, text: Seq<char>) -> bool {
    exists|at: int| occurs_at(needle, text, at)
}

/// `text` begins with `prefix`.
pub open spec fn begins_with(text: Seq<char>, prefix: Seq<char>) -> bool {
    occurs_at(prefix, text, 0)
}

/// The characters of `s`, in order.
pub fn chars_of(s: &str) -> (r: Vec<char>)
    ensures
        r@ == s@,
{
    let mut out: Vec<char> = Vec::new();
    for c in it: s.chars()
        invariant
            it.seq() == s@,
            out@ == s@.take(it.index() as int),
    {
        out.push(c);
        assert(s@.take(it.index() + 1) =~= s@.take(it.index() as int).push(c));
    }
    assert(s@.take(s@.len() as int) =~= s@);
    out
}

/// The string made of the characters of `v`, in order.
pub fn string_of(v: &Vec<char>) -> (r: String)
    ensures
        r@ == v@,
{
    let mut out = String::new();
    let mut i: usize = 0;
    while i < v.len()
        invariant
            i <= v.len(),
            out@ == v@.take(i as int),
        decreases v.len() - i,
    {
        out.push(v[i]);
        assert(v@.take(i + 1) =~= v@.take(i as int).push(v@[i as int]));
        i += 1;
    }
    assert(v@.take(v@.len() as int) =~= v@);
    out
}

/// The characters of the lower-case form of `s`.
pub fn lowercase_chars(s: &str) -> (r: Vec<char>)
    ensures
        r@ == lowercased(s@),
{
    let lower = s.to_lowercase();
    chars_of(lower.as_str())
}

/// Tests whether `needle` stands in `text` at position `at`.
pub fn matches_at(text: &Vec<char>, needle: &Vec<char>, at: usize) -> (r: bool)
    ensures
        r == occurs_at(needle@, text@, at as int),
{
    if needle.len() > text.len() || at > text.len() - needle.len() {
        return false;
    }
    let mut k: usize = 0;
    while k < needle.len()
        invariant
            k <= needle.len(),
            at + needle.len() <= text.len(),
            forall|j: int| 0 <= j < k ==> text@[at + j] == needle@[j],
        decreases needle.len() - k,
    {
        if text[at + k] != needle[k] {
            assert(text@.subrange(at as int, at + needle.len())[k as int] != needle@[k as int]);
            return false;
        }
        k += 1;
    }
    assert(text@.subrange(at as int, at + needle.len()) =~= needle@);
    true
}

/// Tests whether two texts hold the same characters.
pub fn same_text(left: &Vec<char>, right: &Vec<char>) -> (r: bool)
    ensures
        r == (left@ == right@),
{
    if left.len() != right.len() {
        return false;
    }
    let r = matches_at(left, right, 0);
    assert(left@.subrange(0, right@.len() as int) =~= left@);
    r
}

/// Tests whether `text` begins with `prefix`.
pub fn starts_with(text: &Vec<char>, prefix: &Vec<char>) -> (r: bool)
    ensures
        r == begins_with(text@, prefix@),
{
    matches_at(text, prefix, 0)
}

/// Tests whether `needle` stands somewhere in `text`. The empty needle
/// stands in every text.
pub fn contains(text: &Vec<char>, needle: &Vec<char>) -> (r: bool)
    ensures
        r == occurs_in(needle@, text@),
{
    if needle.len() > text.len() {
        return false;
    }
    let last: usize = text.len() - needle.len();
    let mut at: usize = 0;
    loop
        invariant
            at <= last,
            last == text.len() - needle.len(),
            needle.len() <= text.len(),
            forall|j: int| 0 <= j < at ==> !occurs_at(needle@, text@, j),
        decreases last - at,
    {
        if matches_at(text, needle, at) {
            return true;
        }
        if at == last {
            return false;
        }
        at += 1;
    }
}

/// The position of the first line feed of `text`, or its length where it holds none.
pub open spec fn line_end(text: Seq<char>) -> int
    decreases text.len(),
{
    if text.len() == 0 || text[0] == '\n' {
        0
    } else {
        1 + line_end(text.drop_first())
    }
}

/// The first line of `text`, without its line feed and without a carriage
/// return that stands right before the line feed. An empty text has no line.
pub open spec fn first_line_text(text: Seq<char>) -> Option<Seq<char>> {
    let end = line_end(text);
    if text.len() == 0 {
        None
    } else if 0 < end < text.len() && text[end - 1] == '\r' {
        Some(text.take(end - 1))
    } else {
        Some(text.take(end))
    }
}

/// A position that holds the first line feed, or the length where there is
/// none, is the line's end.
pub proof fn lemma_line_end_found(text: Seq<char>, end: int)
    requires
        0 <= end <= text.len(),
        end < text.len() ==> text[end] == '\n',
        forall|i: int| 0 <= i < end ==> text[i] != '\n',
    ensures
        line_end(text) == end,
    decreases text.len(),
{
    if text.len() == 0 || text[0] == '\n' {
    } else {
        let rest = text.drop_first();
        assert forall|i: int| 0 <= i < end - 1 implies rest[i] != '\n' by {
            assert(rest[i] == text[i + 1]);
        }
        lemma_line_end_found(rest, end - 1);
    }
}

/// Cuts the first line out of `text`.
pub fn first_line(text: &Vec<char>) -> (r: Option<Vec<char>>)
    ensures
        r is Some <==> first_line_text(text@) is Some,
        r matches Some(line) ==> first_line_text(text@) == Some(line@),
{
    if text.len() == 0 {
        return None;
    }
    let mut end: usize = 0;
    while end < text.len() && text[end] != '\n'
        invariant
            end <= text.len(),
            forall|i: int| 0 <= i < end ==> text@[i] != '\n',
        decreases text.len() - end,
    {
        end += 1;
    }
    proof {
        lemma_line_end_found(text@, end as int);
    }
    let stop: usize = if 0 < end && end < text.len() && text[end - 1] == '\r' {
        end - 1
    } else {
        end
    };
    let mut out: Vec<char> = Vec::new();
    let mut i: usize = 0;
    while i < stop
        invariant
            i <= stop <= text.len(),
            out@ == text@.take(i as int),
        decreases stop - i,
    {
        out.push(text[i]);
        assert(text@.take(i + 1) =~= text@.take(i as int).push(text@[i as int]));
        i += 1;
    }
    Some(out)
}

} // verus!
