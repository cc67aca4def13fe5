//! Character-level windowing over strings.
//!
//! Lengths and offsets throughout the crate count Unicode scalar values
//! (`char`s), never bytes, so a window can never split a multi-byte
//! character.

use vstd::prelude::*;
use vstd::string::StrSliceExecFns;

verus! {

/// The run of at most `count` characters of `s` that starts at `start`:
/// both the start and the end are clamped to the end of `s`.
pub open spec fn char_window(s: Seq<char>, start: int, count: int) -> Seq<char>
    recommends
        0 <= start,
        0 <= count,
{
    let lo = vstd::math::min(start, s.len() as int);
    let hi = vstd::math::min(start + count, s.len() as int);
    s.subrange(lo, hi)
}

/// Extract the run of `count` characters of `string` that starts at the
/// character offset `start`; a run that would reach past the end is cut
/// short there, and a start past the end yields the empty string.
pub fn utf_substring(string: &String, start: usize, count: usize) -> (r: String)
    ensures
        r@ == char_window(string@, start as int, count as int),
{
    let s: &str = string.as_str();
    let l: usize = s.unicode_len();
    let from: usize = if start <= l {
        start
    } else {
        l
    };
    let rest: usize = l - from;
    let take: usize = if count <= rest {
        count
    } else {
        rest
    };
    let sub: &str = s.substring_char(from, from + take);
    proof {
        assert(from + take == vstd::math::min(start as int + count as int, string@.len() as int));
    }
    sub.to_owned()
}

} // verus!
