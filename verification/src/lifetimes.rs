//! References that live as long as what they refer to.

use crate::text::{byte_length, first_full_stop, lemma_first_full_stop};
use vstd::prelude::*;
use vstd::string::StrSliceExecFns;

verus! {

/// The longer of `x` and `y`, measured in bytes; `y` where they are of one
/// length.
pub fn longest<'a>(x: &'a str, y: &'a str) -> (longer: &'a str)
    ensures
        longer == if byte_length(x@) > byte_length(y@) {
            x
        } else {
            y
        },
{
    if x.as_bytes().len() > y.as_bytes().len() {
        x
    } else {
        y
    }
}

/// `x`, whatever `y` is.
pub fn return_first_param<'a>(x: &'a str, y: &str) -> (first: &'a str)
    ensures
        first == x,
{
    x
}

/// A part of a text, borrowed from it.
pub struct ImportantExcerpt<'a> {
    pub part: &'a str,
}

/// The first sentence of `novel`: what stands before its first full stop,
/// or all of it where it has none.
pub fn lifetime_in_struct<'a>(novel: &'a str) -> (excerpt: ImportantExcerpt<'a>)
    ensures
        excerpt.part@ == novel@.take(first_full_stop(novel@)),
{
    let length = novel.unicode_len();
    let mut end: usize = 0;
    while end < length && novel.get_char(end) != '.'
        invariant
            end <= length == novel@.len(),
            forall|k: int| 0 <= k < end ==> novel@[k] != '.',
        decreases length - end,
    {
        end = end + 1;
    }
    proof {
        lemma_first_full_stop(novel@, end as int);
    }
    ImportantExcerpt { part: novel.substring_char(0, end) }
}

} // verus!
