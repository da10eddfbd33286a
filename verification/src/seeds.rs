//! The seed list: the URLs that a crawl starts from, one on a line.

use crate::text::texts;
use vstd::prelude::*;

verus! {

/// Whether `char::is_whitespace` holds of `c`: whether the character has the
/// Unicode property White_Space.
pub uninterp spec fn white_space(c: char) -> bool;

/// `char::is_whitespace`.
#[verifier::external_body]
fn is_white_space(c: char) -> (white: bool)
    ensures
        white == white_space(c),
{
    c.is_whitespace()
}

/// `String::push`: the character is appended.
#[verifier::external_body]
fn push_char(text: &mut String, c: char)
    ensures
        final(text)@ == old(text)@.push(c),
{
    text.push(c)
}

/// A text without the white space that it begins with.
pub open spec fn trimmed_start(text: Seq<char>) -> Seq<char>
    decreases text.len(),
{
    if text.len() > 0 && white_space(text[0]) {
        trimmed_start(text.drop_first())
    } else {
        text
    }
}

/// A text without the white space that it ends with.
pub open spec fn trimmed_end(text: Seq<char>) -> Seq<char>
    decreases text.len(),
{
    if text.len() > 0 && white_space(text.last()) {
        trimmed_end(text.drop_last())
    } else {
        text
    }
}

/// A text without the white space around it.
pub open spec fn trimmed(text: Seq<char>) -> Seq<char> {
    trimmed_end(trimmed_start(text))
}

/// The lines of a text: what stands between its line feeds, before the
/// first and after the last. A text without a line feed is one line.
pub open spec fn lines(text: Seq<char>) -> Seq<Seq<char>>
    decreases text.len(),
{
    if text.len() == 0 {
        seq![Seq::empty()]
    } else {
        let before = lines(text.drop_last());
        if text.last() == '\n' {
            before.push(Seq::empty())
        } else {
            before.drop_last().push(before.last().push(text.last()))
        }
    }
}

/// The seeds on these lines: each line without the white space around it,
/// blank lines left out.
pub open spec fn seeds_of(pieces: Seq<Seq<char>>) -> Seq<Seq<char>>
    decreases pieces.len(),
{
    if pieces.len() == 0 {
        Seq::empty()
    } else if trimmed(pieces.last()).len() > 0 {
        seeds_of(pieces.drop_last()).push(trimmed(pieces.last()))
    } else {
        seeds_of(pieces.drop_last())
    }
}

/// The seeds that a seed list holds.
pub open spec fn seed_list(text: Seq<char>) -> Seq<Seq<char>> {
    seeds_of(lines(text))
}

/// A line without the white space around it.
pub fn trim_line(line: &Vec<char>) -> (text: String)
    ensures
        text@ == trimmed(line@),
{
    let len = line.len();
    let mut start: usize = 0;
    assert(line@.subrange(0, len as int) == line@);
    while start < len && is_white_space(line[start])
        invariant
            start <= len,
            len == line.len(),
            trimmed_start(line@) == trimmed_start(line@.subrange(start as int, len as int)),
        decreases len - start,
    {
        assert(line@.subrange(start as int, len as int).drop_first() == line@.subrange(
            start + 1,
            len as int,
        ));
        start += 1;
    }
    let mut end: usize = len;
    while end > start && is_white_space(line[end - 1])
        invariant
            start <= end <= len,
            len == line.len(),
            trimmed(line@) == trimmed_end(line@.subrange(start as int, end as int)),
        decreases end - start,
    {
        assert(line@.subrange(start as int, end as int).drop_last() == line@.subrange(
            start as int,
            end - 1,
        ));
        end -= 1;
    }
    let mut text = String::new();
    let mut i: usize = start;
    while i < end
        invariant
            start <= i <= end <= len,
            len == line.len(),
            text@ == line@.subrange(start as int, i as int),
        decreases end - i,
    {
        push_char(&mut text, line[i]);
        i += 1;
    }
    text
}

/// Reads a seed list: one URL on a line, the white space around it and
/// blank lines ignored.
pub fn parse_seeds(text: &str) -> (seeds: Vec<String>)
    ensures
        texts(seeds@) == seed_list(text@),
{
    let mut seeds: Vec<String> = Vec::new();
    let mut line: Vec<char> = Vec::new();
    let ghost mut done: Seq<Seq<char>> = Seq::empty();
    for c in it: text.chars()
        invariant
            it.seq() == text@,
            lines(text@.subrange(0, it.index() as int)) == done.push(line@),
            texts(seeds@) == seeds_of(done),
    {
        assert(text@.subrange(0, it.index() + 1).drop_last() == text@.subrange(
            0,
            it.index() as int,
        ));
        if c == '\n' {
            let entry = trim_line(&line);
            assert(done.push(line@).drop_last() == done);
            if !entry.as_str().is_empty() {
                seeds.push(entry);
            }
            proof {
                done = done.push(line@);
            }
            line = Vec::new();
        } else {
            line.push(c);
        }
    }
    assert(text@.subrange(0, text@.len() as int) == text@);
    let entry = trim_line(&line);
    assert(done.push(line@).drop_last() == done);
    if !entry.as_str().is_empty() {
        seeds.push(entry);
    }
    seeds
}

} // verus!
