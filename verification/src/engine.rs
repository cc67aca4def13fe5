//! The marquee engine: per tick it takes the latest raw value, decodes
//! it when structured mode is on, renders one window, composes the
//! decorations, and tells the driver what to write — until the non-loop
//! pass completes.

use vstd::prelude::*;
use vstd::string::{StrSliceExecFns, StringExecFns};
use crate::decode::content_view;
use crate::decode::decode_payload;
use crate::decode::json_wf;
use crate::decode::prefix_view;
use crate::decode::rejection_of;
use crate::decode::rotate_view;
use crate::decode::schema_ok;
use crate::decode::suffix_view;
use crate::payload::DecodeError;
use crate::payload::Payload;
use crate::render::{frame_chars, next_cursor, render_window, reset_cursor};

verus! {

/// The immutable configuration of one run.
pub struct Config {
    /// Milliseconds between ticks; the driver sleeps out what is left of
    /// this after each tick.
    pub delay_ms: u64,
    /// Width of the animated window, in characters; decorations are not
    /// counted against it.
    pub width: usize,
    /// Whether the animation wraps around indefinitely; when off, the
    /// run stops after one pass over the text.
    pub looping: bool,
    /// Static text put before every frame.
    pub prefix: Option<String>,
    /// Static text put after every frame.
    pub suffix: Option<String>,
    /// Put between the end of the text and its next start when wrapping.
    pub separator: String,
    /// Scan right-to-left instead of left-to-right.
    pub reverse: bool,
    /// Overwrite one output line in place instead of writing a line per
    /// frame.
    pub same_line: bool,
    /// Treat each raw value as a structured payload.
    pub structured: bool,
}

/// What the driver is to do after one tick.
pub enum TickStep {
    /// Nothing to show this tick: emit nothing, wait out the interval.
    Idle,
    /// Structured decoding failed: report the error, clear the register
    /// so the same value is not retried, emit nothing this tick.
    Reject(DecodeError),
    /// Write this exact text to the sink.
    Emit(String),
    /// The non-loop pass is complete: emit nothing and stop for good.
    Stop,
}

/// The view of an optional decoration: its text, empty when absent.
pub open spec fn affix(o: Option<String>) -> Seq<char> {
    match o {
        Some(s) => s@,
        None => Seq::empty(),
    }
}

/// `n` spaces (none when `n` is not positive): what erases the leftovers
/// of a longer previous frame in same-line mode.
pub open spec fn spaces(n: int) -> Seq<char> {
    Seq::new(
        if n >= 0 {
            n as nat
        } else {
            0
        },
        |i: int| ' ',
    )
}

/// The decorated frame. The order is the literal two-step sequence: the
/// static prefix is prepended first and the payload prefix in front of
/// it, so the payload prefix ends up outermost on the left; the payload
/// suffix is appended first and the static suffix after it, so the
/// static suffix ends up outermost on the right.
pub open spec fn decorated(
    window: Seq<char>,
    static_prefix: Seq<char>,
    payload_prefix: Seq<char>,
    payload_suffix: Seq<char>,
    static_suffix: Seq<char>,
) -> Seq<char> {
    payload_prefix + static_prefix + window + payload_suffix + static_suffix
}

/// The exact text written for one frame: in same-line mode a carriage
/// return, the frame, and enough spaces to blot out a longer previous
/// frame; otherwise the frame and a newline.
pub open spec fn output_line(dec: Seq<char>, same_line: bool, prev_len: int) -> Seq<char> {
    if same_line {
        seq!['\r'] + dec + spaces(prev_len - dec.len())
    } else {
        dec + seq!['\n']
    }
}

/// Where this frame's window starts: at the reset position when the
/// *raw* value differs from the previous tick's — by equality of the
/// whole value, not of the decoded content — else wherever the cursor
/// stood. The reset position itself is derived from the content the
/// window animates over.
pub open spec fn start_cursor(
    prev: Seq<char>,
    cursor: int,
    raw: Seq<char>,
    content: Seq<char>,
    width: int,
    reverse: bool,
) -> int {
    if prev != raw {
        reset_cursor(content.len() as int, width, reverse)
    } else {
        cursor
    }
}

/// Whether the cursor arithmetic for a content fits the machine: always
/// when the content fits the width; otherwise the doubled wrap buffer
/// plus the width must fit in `usize`.
pub open spec fn fits_machine(content: Seq<char>, sep: Seq<char>, width: int) -> bool {
    content.len() <= width || 2 * (content.len() + sep.len()) + width <= usize::MAX
}

/// Everything one tick does once a payload is in hand, over the raw
/// value it came from and the views of the payload's fields: how the
/// animation state moves and which step comes back. A stopped engine
/// stays stopped and does nothing else.
pub open spec fn payload_step(
    pre: MarqueeEngine,
    post: MarqueeEngine,
    raw: Seq<char>,
    payload_prefix: Seq<char>,
    content: Seq<char>,
    payload_suffix: Seq<char>,
    rotate: bool,
    r: TickStep,
) -> bool {
    let w = pre.config.width as int;
    let sep = pre.config.separator@;
    let c0 = start_cursor(pre.prev@, pre.cursor as int, raw, content, w, pre.config.reverse);
    let fr = frame_chars(content, sep, c0, w, pre.config.reverse);
    let c1 = next_cursor(c0, content.len() as int, sep.len() as int, w, pre.config.reverse, rotate);
    let stops = !pre.config.looping && c1 + w == content.len() + 2;
    let dec = decorated(
        fr,
        affix(pre.config.prefix),
        payload_prefix,
        payload_suffix,
        affix(pre.config.suffix),
    );
    if pre.stopped {
        post == pre && r == TickStep::Stop
    } else {
        &&& post.config == pre.config
        &&& post.prev@ == raw
        &&& post.cursor as int == c1
        &&& post.stopped == stops
        &&& if stops {
            r == TickStep::Stop && post.prev_frame == pre.prev_frame
        } else {
            &&& (r matches TickStep::Emit(line) && line@ == output_line(
                dec,
                pre.config.same_line,
                pre.prev_frame@.len() as int,
            ))
            &&& post.prev_frame@ == if pre.config.same_line {
                dec
            } else {
                pre.prev_frame@
            }
        }
    }
}

/// Compose the decorations around one window, in the order
/// [`decorated`] states.
pub fn decorate(window: String, config: &Config, p: &Payload) -> (r: String)
    ensures
        r@ == decorated(window@, affix(config.prefix), p.prefix@, p.suffix@, affix(config.suffix)),
{
    let mut out = String::new();
    out.append(p.prefix.as_str());
    if let Some(s) = &config.prefix {
        out.append(s.as_str());
    }
    out.append(window.as_str());
    out.append(p.suffix.as_str());
    if let Some(s) = &config.suffix {
        out.append(s.as_str());
    }
    proof {
        assert(out@ =~= decorated(
            window@,
            affix(config.prefix),
            p.prefix@,
            p.suffix@,
            affix(config.suffix),
        ));
    }
    out
}

/// The same-line form of one frame: a carriage return, the frame, then
/// spaces enough to erase what a longer previous frame left behind.
pub fn same_line_output(dec: &String, prev_frame: &String) -> (r: String)
    ensures
        r@ == seq!['\r'] + dec@ + spaces(prev_frame@.len() - dec@.len()),
{
    proof {
        reveal_strlit("\r");
        reveal_strlit(" ");
    }
    let mut out = String::from_str("\r");
    out.append(dec.as_str());
    let dl = dec.as_str().unicode_len();
    let pl = prev_frame.as_str().unicode_len();
    if pl > dl {
        let pad = pl - dl;
        let mut i: usize = 0;
        while i < pad
            invariant
                i <= pad,
                pad == prev_frame@.len() - dec@.len(),
                out@ == seq!['\r'] + dec@ + spaces(i as int),
            decreases pad - i,
        {
            out.append(" ");
            proof {
                reveal_strlit(" ");
                assert(spaces(i as int + 1) =~= spaces(i as int) + seq![' ']);
                assert(out@ =~= seq!['\r'] + dec@ + spaces(i as int + 1));
            }
            i = i + 1;
        }
    } else {
        proof {
            assert(out@ =~= seq!['\r'] + dec@ + spaces(prev_frame@.len() - dec@.len()));
        }
    }
    out
}

/// The engine: the configuration plus the animation state it alone owns
/// — the cursor into the wrap buffer, the previous raw text (for change
/// detection), and the previous rendered frame (for same-line clearing).
pub struct MarqueeEngine {
    pub config: Config,
    /// Offset into the doubled wrap buffer where the next window starts.
    pub cursor: usize,
    /// The raw value of the previous tick; a differing raw value resets
    /// the cursor.
    pub prev: String,
    /// The previously written frame, tracked in same-line mode only.
    pub prev_frame: String,
    /// Set once the non-loop pass completes; terminal.
    pub stopped: bool,
}

impl MarqueeEngine {
    /// A fresh engine: cursor at the head, nothing previous, running.
    pub fn new(config: Config) -> (r: MarqueeEngine)
        ensures
            r.config == config,
            r.cursor == 0,
            r.prev@ == Seq::<char>::empty(),
            r.prev_frame@ == Seq::<char>::empty(),
            !r.stopped,
    {
        MarqueeEngine {
            config,
            cursor: 0,
            prev: String::new(),
            prev_frame: String::new(),
            stopped: false,
        }
    }

    /// One tick over an already-decoded payload and the raw value it
    /// came from: reset the cursor if the raw value changed, render the
    /// window, advance the cursor per the rotation rule, decorate, and
    /// either emit the framed line or stop when the non-loop pass has
    /// just completed.
    pub fn tick_payload(&mut self, raw: &String, p: &Payload) -> (r: TickStep)
        requires
            fits_machine(p.content@, old(self).config.separator@, old(self).config.width as int),
        ensures
            payload_step(
                *old(self),
                *final(self),
                raw@,
                p.prefix@,
                p.content@,
                p.suffix@,
                p.rotate,
                r,
            ),
    {
        if self.stopped {
            return TickStep::Stop;
        }
        let l = p.content.as_str().unicode_len();
        let w = self.config.width;
        if !(self.prev == *raw) {
            if self.config.reverse {
                let doubled: u128 = (l as u128) * 2;
                let wide: u128 = w as u128;
                let at: u128 = if doubled >= wide {
                    doubled - wide
                } else {
                    0
                };
                proof {
                    assert(at <= usize::MAX as u128);
                }
                self.cursor = at as usize;
            } else {
                self.cursor = 0;
            }
        }
        self.prev = raw.clone();
        let rendered = render_window(
            &p.content,
            &self.config.separator,
            self.cursor,
            w,
            self.config.reverse,
            p.rotate,
        );
        let frame = rendered.0;
        let next = rendered.1;
        self.cursor = next;
        let dec = decorate(frame, &self.config, p);
        if !self.config.looping && (next as u128) + (w as u128) == (l as u128) + 2 {
            self.stopped = true;
            return TickStep::Stop;
        }
        if self.config.same_line {
            let line = same_line_output(&dec, &self.prev_frame);
            self.prev_frame = dec;
            TickStep::Emit(line)
        } else {
            let mut line = dec;
            line.append("\n");
            proof {
                reveal_strlit("\n");
                assert(line@ =~= output_line(
                    decorated(
                        frame_chars(
                            p.content@,
                            old(self).config.separator@,
                            start_cursor(
                                old(self).prev@,
                                old(self).cursor as int,
                                raw@,
                                p.content@,
                                old(self).config.width as int,
                                old(self).config.reverse,
                            ),
                            old(self).config.width as int,
                            old(self).config.reverse,
                        ),
                        affix(old(self).config.prefix),
                        p.prefix@,
                        p.suffix@,
                        affix(old(self).config.suffix),
                    ),
                    false,
                    old(self).prev_frame@.len() as int,
                ));
            }
            TickStep::Emit(line)
        }
    }

    /// One tick of the engine over the latest raw value, as the driver
    /// runs it once per interval: idle on no value or an empty one; in
    /// structured mode decode the value and either reject it — the
    /// state untouched — or animate its content under its own
    /// decorations and rotation switch; otherwise animate the raw text
    /// itself. (A structured content too long for the cursor arithmetic
    /// of the machine is skipped like an absent value.)
    pub fn tick(&mut self, input: &Option<String>) -> (r: TickStep)
        requires
            match *input {
                Some(s) => !old(self).config.structured ==> fits_machine(
                    s@,
                    old(self).config.separator@,
                    old(self).config.width as int,
                ),
                None => true,
            },
        ensures
            old(self).stopped ==> (r == TickStep::Stop && *final(self) == *old(self)),
            !old(self).stopped ==> match *input {
                None => r == TickStep::Idle && *final(self) == *old(self),
                Some(s) => {
                    &&& s@.len() == 0 ==> (r == TickStep::Idle && *final(self) == *old(self))
                    &&& (s@.len() > 0 && !old(self).config.structured) ==> payload_step(
                        *old(self),
                        *final(self),
                        s@,
                        Seq::empty(),
                        s@,
                        Seq::empty(),
                        true,
                        r,
                    )
                    &&& (s@.len() > 0 && old(self).config.structured) ==> {
                        &&& (r is Reject <==> !(json_wf(s@) && schema_ok(s@)))
                        &&& (r matches TickStep::Reject(e) ==> rejection_of(s@, e) && *final(self)
                            == *old(self))
                        &&& (json_wf(s@) && schema_ok(s@)) ==> if fits_machine(
                            content_view(s@),
                            old(self).config.separator@,
                            old(self).config.width as int,
                        ) {
                            payload_step(
                                *old(self),
                                *final(self),
                                s@,
                                prefix_view(s@),
                                content_view(s@),
                                suffix_view(s@),
                                rotate_view(s@),
                                r,
                            )
                        } else {
                            r == TickStep::Idle && *final(self) == *old(self)
                        }
                    }
                },
            },
    {
        if self.stopped {
            return TickStep::Stop;
        }
        let s = match input {
            Some(s) => s,
            None => {
                return TickStep::Idle;
            },
        };
        if s.as_str().is_empty() {
            return TickStep::Idle;
        }
        if self.config.structured {
            match decode_payload(s) {
                Err(e) => TickStep::Reject(e),
                Ok(p) => {
                    let l = p.content.as_str().unicode_len();
                    let w = self.config.width;
                    if l > w {
                        let sl = self.config.separator.as_str().unicode_len();
                        let need: u128 = 2 * ((l as u128) + (sl as u128)) + (w as u128);
                        if need > (usize::MAX as u128) {
                            return TickStep::Idle;
                        }
                    }
                    let r = self.tick_payload(s, &p);
                    proof {
                        assert(p.prefix@ == prefix_view(s@));
                        assert(p.content@ == content_view(s@));
                        assert(p.suffix@ == suffix_view(s@));
                        assert(p.rotate == rotate_view(s@));
                    }
                    r
                },
            }
        } else {
            let p = Payload {
                prefix: String::new(),
                content: s.clone(),
                suffix: String::new(),
                rotate: true,
            };
            self.tick_payload(s, &p)
        }
    }
}

} // verus!
