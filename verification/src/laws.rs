//! The laws of the renderer and the animation state, stated once and
//! proved: how frames relate to the text, the separator and the cursor
//! across ticks.

use vstd::prelude::*;
use vstd::arithmetic::div_mod::lemma_fundamental_div_mod_converse;
use vstd::arithmetic::div_mod::lemma_small_mod;
use crate::engine::start_cursor;
use crate::render::{frame_chars, next_cursor, reset_cursor, wrap_buffer, wrap_unit};

verus! {

/// A text no longer than the window is shown whole and unmoved: every
/// tick renders it unchanged and leaves the cursor where it was,
/// whatever the cursor, separator, direction and rotation switch.
pub proof fn lemma_short_text_still(
    text: Seq<char>,
    sep: Seq<char>,
    cursor: int,
    width: int,
    reverse: bool,
    rotate: bool,
)
    requires
        text.len() <= width,
    ensures
        frame_chars(text, sep, cursor, width, reverse) == text,
        next_cursor(cursor, text.len() as int, sep.len() as int, width, reverse, rotate) == cursor,
{
}

/// With rotation off the cursor is frozen: the next cursor is the
/// current one, whatever the lengths and the direction.
pub proof fn lemma_no_rotate_freezes(cursor: int, len: int, sep_len: int, width: int, reverse: bool)
    ensures
        next_cursor(cursor, len, sep_len, width, reverse, false) == cursor,
{
}

/// Change-reset: when the raw value differs from the previous tick's —
/// by equality of the whole value — the frame starts at the reset
/// position derived from the content, the same position whatever cursor
/// the old animation had reached, so the first frame of a new value
/// never depends on the old one.
pub proof fn lemma_change_resets(
    prev: Seq<char>,
    cursor_a: int,
    cursor_b: int,
    raw: Seq<char>,
    content: Seq<char>,
    width: int,
    reverse: bool,
)
    requires
        prev != raw,
    ensures
        start_cursor(prev, cursor_a, raw, content, width, reverse) == reset_cursor(
            content.len() as int,
            width,
            reverse,
        ),
        start_cursor(prev, cursor_a, raw, content, width, reverse) == start_cursor(
            prev,
            cursor_b,
            raw,
            content,
            width,
            reverse,
        ),
{
}

/// Repeating the same raw value does not reset: the frame starts at
/// whatever cursor the previous tick left, so the animation continues
/// from there.
pub proof fn lemma_same_value_continues(
    prev: Seq<char>,
    cursor: int,
    content: Seq<char>,
    width: int,
    reverse: bool,
)
    ensures
        start_cursor(prev, cursor, prev, content, width, reverse) == cursor,
{
}

/// One full forward cycle walks the wraparound content exactly once:
/// while the text exceeds the width, every frame whose cursor is within
/// one unit has exactly `width` characters; its `j`-th character is
/// character `(cursor + j) % (len + sep_len)` of `text + sep`, so the
/// frames taken in cursor order spell out the cyclic buffer; and a
/// rotating forward tick moves the cursor one step around that cycle,
/// so it returns to its start after `len + sep_len` ticks.
pub proof fn lemma_forward_cycle(text: Seq<char>, sep: Seq<char>, cursor: int, width: int)
    requires
        0 <= width < text.len(),
        0 <= cursor < text.len() + sep.len(),
    ensures
        frame_chars(text, sep, cursor, width, false).len() == width,
        forall|j: int|
            0 <= j < width ==> frame_chars(text, sep, cursor, width, false)[j] == (text + sep)[(
            cursor + j) % (text.len() + sep.len() as int)],
        next_cursor(cursor, text.len() as int, sep.len() as int, width, false, true) == if cursor
            + 1 == text.len() + sep.len() {
            0int
        } else {
            cursor + 1
        },
{
    let unit = wrap_unit(text, sep, false);
    let m = unit.len() as int;
    let buf = wrap_buffer(text, sep, false);
    let fr = frame_chars(text, sep, cursor, width, false);
    assert(buf.len() == 2 * m);
    assert(fr =~= buf.subrange(cursor, cursor + width));
    assert forall|j: int| 0 <= j < width implies fr[j] == (text + sep)[(cursor + j) % m] by {
        let k = cursor + j;
        assert(fr[j] == buf[k]);
        if k < m {
            lemma_small_mod(k as nat, m as nat);
            assert(buf[k] == unit[k]);
        } else {
            lemma_fundamental_div_mod_converse(k, m, 1, k - m);
            assert(buf[k] == unit[k - m]);
        }
    }
    if cursor + 1 == m {
        lemma_fundamental_div_mod_converse(cursor + 1, m, 1, 0);
    } else {
        lemma_small_mod((cursor + 1) as nat, m as nat);
    }
}

} // verus!
