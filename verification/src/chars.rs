//! Texts as sequences of characters: white space, trimming, and words at a
//! place of a line.

use vstd::prelude::*;
use crate::text::chars_of;

verus! {

/// Whether a character is white space, as Unicode defines it.
pub open spec fn is_white_space(c: char) -> bool {
    let n = c as u32;
    ||| 0x09 <= n <= 0x0D
    ||| n == 0x20
    ||| n == 0x85
    ||| n == 0xA0
    ||| n == 0x1680
    ||| 0x2000 <= n <= 0x200A
    ||| n == 0x2028
    ||| n == 0x2029
    ||| n == 0x202F
    ||| n == 0x205F
    ||| n == 0x3000
}

/// A text without the white space at its start.
pub open spec fn trimmed_start(text: Seq<char>) -> Seq<char>
    decreases text.len(),
{
    if text.len() > 0 && is_white_space(text[0]) {
        trimmed_start(text.skip(1))
    } else {
        text
    }
}

/// A text without the white space at its end.
pub open spec fn trimmed_end(text: Seq<char>) -> Seq<char>
    decreases text.len(),
{
    if text.len() > 0 && is_white_space(text.last()) {
        trimmed_end(text.drop_last())
    } else {
        text
    }
}

/// A text without the white space at its start and at its end.
pub open spec fn trimmed(text: Seq<char>) -> Seq<char> {
    trimmed_end(trimmed_start(text))
}

/// The text that holds the characters from one place of a line up to
/// another.
pub fn text_between(line: &Vec<char>, from: usize, to: usize) -> (text: String)
    requires
        from <= to <= line.len(),
    ensures
        text@ == line@.subrange(from as int, to as int),
{
    let mut text = String::new();
    let mut i: usize = from;
    while i < to
        invariant
            from <= i <= to <= line.len(),
            text@ == line@.subrange(from as int, i as int),
        decreases to - i,
    {
        text.push(line[i]);
        i = i + 1;
        assert(text@ =~= line@.subrange(from as int, i as int));
    }
    text
}

/// Tells whether a character is white space, as Unicode defines it.
pub fn white_space(c: char) -> (r: bool)
    ensures
        r == is_white_space(c),
{
    let n = c as u32;
    (0x09 <= n && n <= 0x0D) || n == 0x20 || n == 0x85 || n == 0xA0 || n == 0x1680 || (0x2000
        <= n && n <= 0x200A) || n == 0x2028 || n == 0x2029 || n == 0x202F || n == 0x205F || n
        == 0x3000
}

/// Whether the word stands in the line at the given place.
pub open spec fn has_word(line: Seq<char>, at: int, word: Seq<char>) -> bool {
    0 <= at && at + word.len() <= line.len() && line.subrange(at, at + word.len()) == word
}

/// Tells whether a word stands in a line at a given place.
pub fn word_at(line: &Vec<char>, at: usize, word: &Vec<char>) -> (r: bool)
    ensures
        r == has_word(line@, at as int, word@),
{
    if at > line.len() || word.len() > line.len() - at {
        return false;
    }
    let mut i: usize = 0;
    while i < word.len()
        invariant
            i <= word.len(),
            at + word.len() <= line.len(),
            line@.subrange(at as int, at + i) == word@.subrange(0, i as int),
        decreases word.len() - i,
    {
        if line[at + i] != word[i] {
            proof {
                let part = line@.subrange(at as int, at + word.len());
                assert(part[i as int] != word@[i as int]);
            }
            return false;
        }
        i = i + 1;
        assert(line@.subrange(at as int, at + i) =~= word@.subrange(0, i as int));
    }
    assert(word@.subrange(0, word.len() as int) =~= word@);
    true
}

/// The line without the white space at its start and at its end.
pub fn trim(line: &Vec<char>) -> (r: Vec<char>)
    ensures
        r@ == trimmed(line@),
{
    let mut start: usize = 0;
    assert(line@.subrange(0, line.len() as int) =~= line@);
    while start < line.len() && white_space(line[start])
        invariant
            start <= line.len(),
            trimmed_start(line@) == trimmed_start(line@.subrange(start as int, line.len() as int)),
        decreases line.len() - start,
    {
        proof {
            let rest = line@.subrange(start as int, line.len() as int);
            assert(rest.skip(1) =~= line@.subrange(start + 1, line.len() as int));
        }
        start = start + 1;
    }
    let ghost middle = line@.subrange(start as int, line.len() as int);
    assert(trimmed_start(line@) == middle);
    let mut end: usize = line.len();
    while end > start && white_space(line[end - 1])
        invariant
            start <= end <= line.len(),
            middle == line@.subrange(start as int, line.len() as int),
            trimmed_end(middle) == trimmed_end(line@.subrange(start as int, end as int)),
        decreases end,
    {
        proof {
            let rest = line@.subrange(start as int, end as int);
            assert(rest.drop_last() =~= line@.subrange(start as int, end - 1));
        }
        end = end - 1;
    }
    let mut r: Vec<char> = Vec::new();
    let mut i: usize = start;
    while i < end
        invariant
            start <= i <= end <= line.len(),
            r@ == line@.subrange(start as int, i as int),
        decreases end - i,
    {
        r.push(line[i]);
        i = i + 1;
        assert(r@ =~= line@.subrange(start as int, i as int));
    }
    r
}

/// Tells whether two texts hold the same characters.
pub fn same_chars(a: &Vec<char>, b: &Vec<char>) -> (r: bool)
    ensures
        r == (a@ == b@),
{
    if a.len() != b.len() {
        return false;
    }
    let mut i: usize = 0;
    while i < a.len()
        invariant
            i <= a.len(),
            a.len() == b.len(),
            forall|j: int| 0 <= j < i ==> a@[j] == b@[j],
        decreases a.len() - i,
    {
        if a[i] != b[i] {
            return false;
        }
        i = i + 1;
    }
    assert(a@ =~= b@);
    true
}

/// The text that holds the given characters.
pub fn text_of_chars(chars: &Vec<char>) -> (text: String)
    ensures
        text@ == chars@,
{
    let text = text_between(chars, 0, chars.len());
    assert(chars@.subrange(0, chars.len() as int) =~= chars@);
    text
}

/// Tells whether two texts hold the same characters.
pub fn text_equals(a: &str, b: &str) -> (r: bool)
    ensures
        r == (a@ == b@),
{
    same_chars(&chars_of(a), &chars_of(b))
}

/// The text without the white space at its start and at its end.
pub fn trimmed_text(text: &String) -> (r: String)
    ensures
        r@ == trimmed(text@),
{
    text_of_chars(&trim(&chars_of(text.as_str())))
}

} // verus!
