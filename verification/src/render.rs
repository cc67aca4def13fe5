//! The window renderer: one frame's visible substring and the cursor for
//! the next tick, over the doubled wraparound buffer.

use vstd::prelude::*;
use vstd::string::{StrSliceExecFns, StringExecFns};
use crate::text::char_window;
use crate::text::utf_substring;

verus! {

/// One copy of the wraparound content: the separator after the text when
/// scanning forward, before it when scanning in reverse.
pub open spec fn wrap_unit(text: Seq<char>, sep: Seq<char>, reverse: bool) -> Seq<char> {
    if reverse {
        sep + text
    } else {
        text + sep
    }
}

/// The wrap buffer: the unit twice end to end, so a window near the end
/// of one copy runs seamlessly into the next.
pub open spec fn wrap_buffer(text: Seq<char>, sep: Seq<char>, reverse: bool) -> Seq<char> {
    wrap_unit(text, sep, reverse) + wrap_unit(text, sep, reverse)
}

/// The visible window of one frame: the text itself when it fits the
/// width, else `width` characters of the wrap buffer starting at `cursor`.
pub open spec fn frame_chars(
    text: Seq<char>,
    sep: Seq<char>,
    cursor: int,
    width: int,
    reverse: bool,
) -> Seq<char> {
    if text.len() <= width {
        text
    } else {
        char_window(wrap_buffer(text, sep, reverse), cursor, width)
    }
}

/// Where the cursor starts over when the text changes: the head in
/// forward mode; in reverse mode the position `2 * len - width` near the
/// tail of the doubled text, clamped to the head when the width exceeds
/// the doubled length.
pub open spec fn reset_cursor(len: int, width: int, reverse: bool) -> int {
    if reverse {
        if 2 * len >= width {
            2 * len - width
        } else {
            0
        }
    } else {
        0
    }
}

/// The cursor after one frame: it moves only when the text is longer than
/// the window and rotation is on; forward it advances modulo one unit's
/// length, in reverse it retreats and restarts at the buffer's last index.
pub open spec fn next_cursor(
    cursor: int,
    len: int,
    sep_len: int,
    width: int,
    reverse: bool,
    rotate: bool,
) -> int {
    if len > width && rotate {
        if reverse {
            if cursor == 0 {
                2 * (len + sep_len) - 1
            } else {
                cursor - 1
            }
        } else {
            (cursor + 1) % (len + sep_len)
        }
    } else {
        cursor
    }
}

fn build_wrap_buffer(text: &String, sep: &String, reverse: bool) -> (r: String)
    ensures
        r@ == wrap_buffer(text@, sep@, reverse),
{
    let mut buf = String::new();
    if reverse {
        buf.append(sep.as_str());
        buf.append(text.as_str());
        buf.append(sep.as_str());
        buf.append(text.as_str());
    } else {
        buf.append(text.as_str());
        buf.append(sep.as_str());
        buf.append(text.as_str());
        buf.append(sep.as_str());
    }
    proof {
        assert(buf@ =~= wrap_buffer(text@, sep@, reverse));
    }
    buf
}

/// Render one frame: the visible window, and where the cursor stands for
/// the next tick.
pub fn render_window(
    text: &String,
    sep: &String,
    cursor: usize,
    width: usize,
    reverse: bool,
    rotate: bool,
) -> (r: (String, usize))
    requires
        text@.len() > width ==> 2 * (text@.len() + sep@.len()) + width <= usize::MAX,
    ensures
        r.0@ == frame_chars(text@, sep@, cursor as int, width as int, reverse),
        r.1 as int == next_cursor(
            cursor as int,
            text@.len() as int,
            sep@.len() as int,
            width as int,
            reverse,
            rotate,
        ),
{
    let l = text.as_str().unicode_len();
    if l <= width {
        (text.clone(), cursor)
    } else {
        let s = sep.as_str().unicode_len();
        let buf = build_wrap_buffer(text, sep, reverse);
        let frame = utf_substring(&buf, cursor, width);
        let next: usize = if rotate {
            if reverse {
                if cursor == 0 {
                    2 * (l + s) - 1
                } else {
                    cursor - 1
                }
            } else {
                let m = l + s;
                let cm = cursor % m;
                let stepped = cm + 1;
                let n: usize = if stepped == m {
                    0
                } else {
                    stepped
                };
                proof {
                    lemma_step_mod(cursor as int, m as int);
                }
                n
            }
        } else {
            cursor
        };
        (frame, next)
    }
}

/// Stepping a cursor forward modulo `m` can be done on the reduced
/// cursor: `(c + 1) % m` equals `c % m + 1`, wrapped to `0` at `m`.
proof fn lemma_step_mod(c: int, m: int)
    requires
        0 <= c,
        1 <= m,
    ensures
        (c + 1) % m == if c % m + 1 == m {
            0int
        } else {
            c % m + 1
        },
{
    vstd::arithmetic::div_mod::lemma_fundamental_div_mod(c, m);
    let q = c / m;
    let r = c % m;
    vstd::arithmetic::div_mod::lemma_mod_bound(c, m);
    assert(m * q == q * m) by (nonlinear_arith);
    if r + 1 == m {
        assert((q + 1) * m == q * m + m) by (nonlinear_arith);
        vstd::arithmetic::div_mod::lemma_fundamental_div_mod_converse(c + 1, m, q + 1, 0);
    } else {
        vstd::arithmetic::div_mod::lemma_fundamental_div_mod_converse(c + 1, m, q, r + 1);
    }
}

} // verus!
