//! Small string operations that the rest of the crate shares. The ones
//! marked trusted call the standard library and state what its
//! documentation says of the call.

use vstd::prelude::*;

verus! {

/// The decimal digit for a number below ten.
pub open spec fn digit_char(d: nat) -> char {
    if d == 0 {
        '0'
    } else if d == 1 {
        '1'
    } else if d == 2 {
        '2'
    } else if d == 3 {
        '3'
    } else if d == 4 {
        '4'
    } else if d == 5 {
        '5'
    } else if d == 6 {
        '6'
    } else if d == 7 {
        '7'
    } else if d == 8 {
        '8'
    } else {
        '9'
    }
}

/// A number written in decimal, without sign or leading zeros.
pub open spec fn decimal(n: nat) -> Seq<char>
    decreases n,
{
    if n < 10 {
        seq![digit_char(n)]
    } else {
        decimal(n / 10).push(digit_char(n % 10))
    }
}

/// Whether `needle` occurs in `haystack` as a run of consecutive characters.
pub open spec fn occurs_in(needle: Seq<char>, haystack: Seq<char>) -> bool {
    exists|i: int|
        0 <= i && i + needle.len() <= haystack.len() && #[trigger] haystack.subrange(
            i,
            i + needle.len(),
        ) == needle
}

/// The words of a text: its maximal runs of characters that are not Unicode
/// white space, in order.
pub uninterp spec fn whitespace_words(text: Seq<char>) -> Seq<Seq<char>>;

/// The pieces of a text between the occurrences of a separator, in order.
/// There is always at least one piece; a text that ends in the separator
/// has an empty last piece.
pub open spec fn split_seq(text: Seq<char>, sep: char) -> Seq<Seq<char>>
    decreases text.len(),
{
    if text.len() == 0 {
        seq![Seq::empty()]
    } else {
        let before = split_seq(text.drop_last(), sep);
        if text.last() == sep {
            before.push(Seq::empty())
        } else {
            before.update(before.len() - 1, before.last().push(text.last()))
        }
    }
}

/// A text without every leading repetition of a prefix.
pub open spec fn strip_all(text: Seq<char>, prefix: Seq<char>) -> Seq<char>
    decreases text.len(),
{
    if prefix.len() > 0 && prefix.is_prefix_of(text) {
        strip_all(text.skip(prefix.len() as int), prefix)
    } else {
        text
    }
}

/// A line without the carriage return at its end, if it has one.
pub open spec fn without_carriage_return(line: Seq<char>) -> Seq<char> {
    if line.len() > 0 && line.last() == '\r' {
        line.drop_last()
    } else {
        line
    }
}

/// The lines of a text: what stands between its line endings, a line
/// ending being a line feed, alone or after a carriage return. A line
/// ending at the very end of the text starts no further line, and a carriage
/// return that no line feed follows stays.
pub open spec fn text_lines(text: Seq<char>) -> Seq<Seq<char>> {
    let pieces = split_seq(text, '\n');
    let ended = pieces.drop_last().map_values(|p: Seq<char>| without_carriage_return(p));
    if pieces.last().len() == 0 {
        ended
    } else {
        ended.push(pieces.last())
    }
}

/// A text without its leading and trailing Unicode white space.
pub uninterp spec fn trimmed(text: Seq<char>) -> Seq<char>;

/// The number that a run of decimal digits stands for, if all its
/// characters are digits from `0` to `9`. The empty run stands for zero.
pub open spec fn digits_value(digits: Seq<char>) -> Option<nat>
    decreases digits.len(),
{
    if digits.len() == 0 {
        Some(0)
    } else {
        let c = digits.last();
        match digits_value(digits.drop_last()) {
            Some(v) => if '0' <= c <= '9' {
                Some(v * 10 + (c as nat - '0' as nat) as nat)
            } else {
                None
            },
            None => None,
        }
    }
}

/// The number that a text stands for when read as an unsigned machine word:
/// an optional `+`, then at least one decimal digit and nothing else, for a
/// number that fits the word.
pub open spec fn parsed_usize(text: Seq<char>) -> Option<usize> {
    let digits = if text.len() > 0 && text[0] == '+' {
        text.skip(1)
    } else {
        text
    };
    if digits.len() == 0 {
        None
    } else {
        match digits_value(digits) {
            Some(v) => if v <= usize::MAX {
                Some(v as usize)
            } else {
                None
            },
            None => None,
        }
    }
}

/// A text with every character replaced by its lowercase form.
pub uninterp spec fn lowercase(text: Seq<char>) -> Seq<char>;

/// Whether two string slices hold the same characters.
///
/// Trusted: `==` on `str` compares the two slices byte for byte.
#[verifier::external_body]
pub(crate) fn str_eq(a: &str, b: &str) -> (same: bool)
    ensures
        same == (a@ == b@),
{
    a == b
}

/// Whether `needle` occurs in `haystack`.
///
/// Trusted: `str::contains` with a string pattern returns whether the
/// pattern matches a sub-slice of the string.
#[verifier::external_body]
pub(crate) fn str_contains(haystack: &str, needle: &str) -> (found: bool)
    ensures
        found == occurs_in(needle@, haystack@),
{
    haystack.contains(needle)
}

/// The words of a text, borrowed from it.
///
/// Trusted: `str::split_whitespace` yields the sub-slices of the text that
/// are separated by any amount of white space, in order, and never an
/// empty one.
#[verifier::external_body]
pub(crate) fn split_whitespace<'a>(text: &'a str) -> (words: Vec<&'a str>)
    ensures
        words.deep_view() == whitespace_words(text@),
{
    text.split_whitespace().collect()
}

/// The pieces of a text between the occurrences of a separator, borrowed
/// from it.
///
/// Trusted: `str::split` with a `char` pattern yields the sub-slices
/// between the matches of the character, in order, empty ones included.
#[verifier::external_body]
pub(crate) fn split_char<'a>(text: &'a str, sep: char) -> (pieces: Vec<&'a str>)
    ensures
        pieces.deep_view() == split_seq(text@, sep),
{
    text.split(sep).collect()
}

/// The lines of a text, borrowed from it.
///
/// Trusted: `str::lines` splits the text at line feeds, drops the line feed
/// and a carriage return right before it from each line, and yields no
/// empty line after a final line feed.
#[verifier::external_body]
pub(crate) fn lines<'a>(text: &'a str) -> (all: Vec<&'a str>)
    ensures
        all.deep_view() == text_lines(text@),
{
    text.lines().collect()
}

/// A text without its leading and trailing white space, borrowed from it.
///
/// Trusted: `str::trim` gives the same slice for the same text.
#[verifier::external_body]
pub(crate) fn trim<'a>(text: &'a str) -> (inner: &'a str)
    ensures
        inner@ == trimmed(text@),
{
    text.trim()
}

/// A text without every leading repetition of a prefix, borrowed from it.
///
/// Trusted: `str::trim_start_matches` with a string pattern removes the
/// pattern from the start of the text for as long as the text starts with
/// it.
#[verifier::external_body]
pub(crate) fn trim_start_matches<'a>(text: &'a str, prefix: &str) -> (rest: &'a str)
    requires
        prefix@.len() > 0,
    ensures
        rest@ == strip_all(text@, prefix@),
{
    text.trim_start_matches(prefix)
}

/// Reads a text as an unsigned machine word.
///
/// Trusted: `str::parse` to `usize` accepts an optional `+` followed by
/// decimal digits only, and fails on an empty text, on any other character
/// and on a number that does not fit; the error is dropped here.
#[verifier::external_body]
pub(crate) fn parse_usize(text: &str) -> (n: Option<usize>)
    ensures
        n == parsed_usize(text@),
{
    text.parse::<usize>().ok()
}

/// A text in lowercase.
///
/// Trusted: `str::to_lowercase` gives the same answer for the same text.
#[verifier::external_body]
pub(crate) fn to_lowercase(text: &str) -> (lower: String)
    ensures
        lower@ == lowercase(text@),
{
    text.to_lowercase()
}

/// A machine word written in decimal.
///
/// Trusted: `to_string` on an unsigned integer writes it in base ten with
/// no sign, padding or leading zeros.
#[verifier::external_body]
pub(crate) fn usize_to_decimal(n: usize) -> (text: String)
    ensures
        text@ == decimal(n as nat),
{
    n.to_string()
}

} // verus!
