//! Text as sequences of characters: what a line is, what it means for one
//! text to occur in another, and the standard library's string functions
//! that the rest of the crate calls, each with the contract it is trusted
//! to meet.

use vstd::prelude::*;

verus! {

/// The position of the first line feed in `text`; the length of `text`
/// where it holds none.
pub open spec fn first_line_feed(text: Seq<char>) -> int
    decreases text.len(),
{
    if text.len() == 0 {
        0
    } else if text[0] == '\n' {
        0
    } else {
        1 + first_line_feed(text.drop_first())
    }
}

/// The lines of `text`. A line ends with a line feed, or with a carriage
/// return followed by a line feed; neither belongs to the line. The last
/// line may go without an ending, and a carriage return at its end, with no
/// line feed behind it, belongs to it. An empty text has no lines.
pub open spec fn lines(text: Seq<char>) -> Seq<Seq<char>>
    decreases text.len(),
    via lines_decreases
{
    if text.len() == 0 {
        Seq::empty()
    } else {
        let end = first_line_feed(text);
        if end == text.len() {
            seq![text]
        } else {
            let line = text.take(end);
            let line = if line.len() > 0 && line.last() == '\r' {
                line.drop_last()
            } else {
                line
            };
            seq![line] + lines(text.skip(end + 1))
        }
    }
}

/// The first line feed lies within the text.
pub proof fn lemma_first_line_feed(text: Seq<char>)
    ensures
        0 <= first_line_feed(text) <= text.len(),
        first_line_feed(text) < text.len() ==> text[first_line_feed(text)] == '\n',
        forall|i: int| 0 <= i < first_line_feed(text) ==> text[i] != '\n',
    decreases text.len(),
{
    if text.len() > 0 && text[0] != '\n' {
        let rest = text.drop_first();
        lemma_first_line_feed(rest);
        assert forall|i: int| 0 <= i < first_line_feed(text) implies text[i] != '\n' by {
            if i > 0 {
                assert(text[i] == rest[i - 1]);
            }
        }
    }
}

#[via_fn]
proof fn lines_decreases(text: Seq<char>) {
    lemma_first_line_feed(text);
}

/// The position of the first full stop in `text`; the length of `text`
/// where it holds none.
pub open spec fn first_full_stop(text: Seq<char>) -> int
    decreases text.len(),
{
    if text.len() == 0 {
        0
    } else if text[0] == '.' {
        0
    } else {
        1 + first_full_stop(text.drop_first())
    }
}

/// The first full stop is where no full stop stands before.
pub proof fn lemma_first_full_stop(text: Seq<char>, at: int)
    requires
        0 <= at <= text.len(),
        forall|k: int| 0 <= k < at ==> text[k] != '.',
        at < text.len() ==> text[at] == '.',
    ensures
        first_full_stop(text) == at,
    decreases at,
{
    if at > 0 {
        let rest = text.drop_first();
        assert forall|k: int| 0 <= k < at - 1 implies rest[k] != '.' by {
            assert(rest[k] == text[k + 1]);
        }
        lemma_first_full_stop(rest, at - 1);
    }
}

/// Whether `needle` occurs in `text` as a run of consecutive characters.
pub open spec fn occurs_in(needle: Seq<char>, text: Seq<char>) -> bool {
    exists|at: int|
        0 <= at && at + needle.len() <= text.len() && #[trigger] text.subrange(
            at,
            at + needle.len(),
        ) == needle
}

/// `text` in lower case, as Unicode defines it.
pub uninterp spec fn lowercase(text: Seq<char>) -> Seq<char>;

/// The texts of a sequence of string slices.
pub open spec fn texts(slices: Seq<&str>) -> Seq<Seq<char>> {
    slices.map_values(|s: &str| s@)
}

/// `str::lines`, collected: the lines of `contents`, each a slice of it, in
/// order. Trusted to split as [`lines`] says.
#[verifier::external_body]
pub(crate) fn split_lines<'a>(contents: &'a str) -> (found: Vec<&'a str>)
    ensures
        texts(found@) == lines(contents@),
{
    contents.lines().collect()
}

/// `str::contains` with a string as the pattern. Trusted to tell whether
/// `needle` occurs in `text`.
#[verifier::external_body]
pub(crate) fn contains(text: &str, needle: &str) -> (found: bool)
    ensures
        found == occurs_in(needle@, text@),
{
    text.contains(needle)
}

/// `str::to_lowercase`. Trusted to depend on the characters of `text`
/// alone; the result is known by the name [`lowercase`] only.
#[verifier::external_body]
pub(crate) fn to_lowercase(text: &str) -> (lower: String)
    ensures
        lower@ == lowercase(text@),
{
    text.to_lowercase()
}

/// `text` without the white space at its two ends, as Unicode defines
/// white space.
pub uninterp spec fn trimmed(text: Seq<char>) -> Seq<char>;

/// Whether `c` is one of the ten decimal digits.
pub open spec fn is_digit(c: char) -> bool {
    '0' <= c <= '9'
}

/// The number that the decimal digits of `digits` write.
pub open spec fn decimal_value(digits: Seq<char>) -> nat
    decreases digits.len(),
{
    if digits.len() == 0 {
        0
    } else {
        (decimal_value(digits.drop_last()) * 10 + (digits.last() as int - '0' as int)) as nat
    }
}

/// Whether `text` is made of decimal digits, and of at least one.
pub open spec fn all_digits(text: Seq<char>) -> bool {
    text.len() > 0 && forall|i: int| 0 <= i < text.len() ==> is_digit(#[trigger] text[i])
}

/// `text` without the plus sign that may stand at its front.
pub open spec fn unsigned_part(text: Seq<char>) -> Seq<char> {
    if text.len() > 0 && text[0] == '+' {
        text.skip(1)
    } else {
        text
    }
}

/// The number that `text` writes: decimal digits, at least one, with
/// nothing before them but, if at all, one plus sign, and nothing behind
/// them. `None` where `text` is not of that form or the number does not fit
/// into 32 bits.
pub open spec fn unsigned_number(text: Seq<char>) -> Option<u32> {
    let digits = unsigned_part(text);
    if all_digits(digits) && decimal_value(digits) <= u32::MAX {
        Some(decimal_value(digits) as u32)
    } else {
        None
    }
}

/// The number of bytes that `text` takes, encoded as UTF-8.
pub open spec fn byte_length(text: Seq<char>) -> nat {
    vstd::utf8::encode_utf8(text).len()
}

/// The decimal digits that write `n`, without leading zeros.
pub open spec fn decimal(n: nat) -> Seq<char>
    decreases n,
{
    if n < 10 {
        seq![('0' as int + n) as char]
    } else {
        decimal(n / 10).push(('0' as int + n % 10) as char)
    }
}

/// The decimal digits that write `n`, behind a minus sign where `n` is
/// below zero.
pub open spec fn signed_decimal(n: int) -> Seq<char> {
    if n < 0 {
        seq!['-'] + decimal((-n) as nat)
    } else {
        decimal(n as nat)
    }
}

/// `count` copies of `text`, one behind the other.
pub open spec fn repeated(text: Seq<char>, count: nat) -> Seq<char>
    decreases count,
{
    if count == 0 {
        Seq::empty()
    } else {
        repeated(text, (count - 1) as nat) + text
    }
}

/// The texts of `items`, one behind the other, with `separator` between
/// each two.
pub open spec fn joined(items: Seq<Seq<char>>, separator: Seq<char>) -> Seq<char>
    decreases items.len(),
{
    if items.len() == 0 {
        Seq::empty()
    } else if items.len() == 1 {
        items[0]
    } else {
        joined(items.drop_last(), separator) + separator + items.last()
    }
}

/// `i32::to_string`. Trusted to write `n` in decimal digits, without
/// leading zeros, behind a minus sign where `n` is below zero.
#[verifier::external_body]
pub(crate) fn signed_decimal_string(n: i32) -> (digits: String)
    ensures
        digits@ == signed_decimal(n as int),
{
    n.to_string()
}

/// `str::trim`. Trusted to depend on the characters of `text` alone; the
/// result is known by the name [`trimmed`] only.
#[verifier::external_body]
pub(crate) fn trim<'a>(text: &'a str) -> (inner: &'a str)
    ensures
        inner@ == trimmed(text@),
{
    text.trim()
}

/// `str::parse` to a `u32`, the error dropped. Trusted to read a number as
/// [`unsigned_number`] says.
#[verifier::external_body]
pub(crate) fn parse_u32(text: &str) -> (number: Option<u32>)
    ensures
        number == unsigned_number(text@),
{
    text.parse::<u32>().ok()
}

/// `usize::to_string`. Trusted to write `n` in decimal digits, without
/// leading zeros.
#[verifier::external_body]
pub(crate) fn decimal_string(n: usize) -> (digits: String)
    ensures
        digits@ == decimal(n as nat),
{
    n.to_string()
}

} // verus!
