//! The engine tick by tick: idling, change reset, rotation, decoration,
//! structured values, same-line output, and the non-loop stop.

use marquee::engine::Config;
use marquee::engine::MarqueeEngine;
use marquee::engine::TickStep;
use marquee::payload::DecodeError;
use marquee::payload::Payload;
use marquee::register::TextRegister;

fn s(t: &str) -> String {
    t.to_string()
}

fn cfg(width: usize) -> Config {
    Config {
        delay_ms: 0,
        width,
        looping: true,
        prefix: None,
        suffix: None,
        separator: s("    "),
        reverse: false,
        same_line: false,
        structured: false,
    }
}

fn emitted(step: TickStep) -> String {
    match step {
        TickStep::Emit(line) => line,
        _ => panic!("expected a frame"),
    }
}

#[test]
fn no_value_and_empty_value_idle() {
    let mut eng = MarqueeEngine::new(cfg(10));
    assert!(matches!(eng.tick(&None), TickStep::Idle));
    assert!(matches!(eng.tick(&Some(s(""))), TickStep::Idle));
    assert_eq!(eng.cursor, 0);
    assert_eq!(eng.prev, "");
}

#[test]
fn short_text_repeats_unchanged_every_tick() {
    let mut eng = MarqueeEngine::new(cfg(10));
    let input = Some(s("hi"));
    for _ in 0..3 {
        assert_eq!(emitted(eng.tick(&input)), "hi\n");
        assert_eq!(eng.cursor, 0);
    }
}

#[test]
fn repeated_value_keeps_animating() {
    let mut eng = MarqueeEngine::new(cfg(3));
    let input = Some(s("abcdef"));
    assert_eq!(emitted(eng.tick(&input)), "abc\n");
    assert_eq!(eng.cursor, 1);
    assert_eq!(emitted(eng.tick(&input)), "bcd\n");
    assert_eq!(eng.cursor, 2);
    assert_eq!(emitted(eng.tick(&input)), "cde\n");
    assert_eq!(eng.cursor, 3);
}

#[test]
fn changed_value_resets_the_cursor_forward() {
    let mut eng = MarqueeEngine::new(cfg(3));
    let first = Some(s("abcdef"));
    for _ in 0..3 {
        eng.tick(&first);
    }
    assert_eq!(eng.cursor, 3);
    // the new value starts at the head, wherever the old cursor stood
    assert_eq!(emitted(eng.tick(&Some(s("zyxwvu")))), "zyx\n");
    assert_eq!(eng.cursor, 1);
}

#[test]
fn changed_value_resets_the_cursor_in_reverse() {
    let mut config = cfg(3);
    config.reverse = true;
    config.separator = s(" ");
    let mut eng = MarqueeEngine::new(config);
    // reset lands at 2 * len - width = 7 in " abcde abcde"
    assert_eq!(emitted(eng.tick(&Some(s("abcde")))), "abc\n");
    assert_eq!(eng.cursor, 6);
    // a new value resets to 7 again, not to wherever the cursor stood
    assert_eq!(emitted(eng.tick(&Some(s("vwxyz")))), "vwx\n");
    assert_eq!(eng.cursor, 6);
}

#[test]
fn reverse_cursor_wraps_at_the_head() {
    let mut config = cfg(3);
    config.reverse = true;
    config.separator = s(" ");
    let mut eng = MarqueeEngine::new(config);
    let input = Some(s("abcde"));
    eng.tick(&input);
    for _ in 0..6 {
        eng.tick(&input);
    }
    assert_eq!(eng.cursor, 0);
    assert_eq!(emitted(eng.tick(&input)), " ab\n");
    assert_eq!(eng.cursor, 11);
}

#[test]
fn structured_rotate_false_freezes_the_window() {
    let mut config = cfg(3);
    config.structured = true;
    let mut eng = MarqueeEngine::new(config);
    let input = Some(s("{\"content\":\"hello\",\"rotate\":false}"));
    assert_eq!(emitted(eng.tick(&input)), "hel\n");
    assert_eq!(eng.cursor, 0);
    assert_eq!(emitted(eng.tick(&input)), "hel\n");
    assert_eq!(eng.cursor, 0);
}

#[test]
fn structured_short_content_renders_whole() {
    let mut config = cfg(20);
    config.structured = true;
    let mut eng = MarqueeEngine::new(config);
    let input = Some(s("{\"content\":\"hello\",\"rotate\":false}"));
    assert_eq!(emitted(eng.tick(&input)), "hello\n");
    assert_eq!(eng.cursor, 0);
}

#[test]
fn payload_prefix_lands_outside_the_static_prefix() {
    let mut config = cfg(10);
    config.structured = true;
    config.prefix = Some(s(">> "));
    let mut eng = MarqueeEngine::new(config);
    let input = Some(s("{\"prefix\":\"* \",\"content\":\"abc\"}"));
    assert_eq!(emitted(eng.tick(&input)), "* >> abc\n");
}

#[test]
fn static_suffix_lands_outside_the_payload_suffix() {
    let mut config = cfg(10);
    config.structured = true;
    config.suffix = Some(s("T"));
    let mut eng = MarqueeEngine::new(config);
    let input = Some(s("{\"content\":\"abc\",\"suffix\":\"S\"}"));
    assert_eq!(emitted(eng.tick(&input)), "abcST\n");
}

#[test]
fn non_loop_run_stops_after_one_pass() {
    let mut config = cfg(3);
    config.looping = false;
    let mut eng = MarqueeEngine::new(config);
    let input = Some(s("abcde"));
    let mut frames = Vec::new();
    loop {
        match eng.tick(&input) {
            TickStep::Emit(line) => frames.push(line),
            TickStep::Stop => break,
            _ => panic!("expected a frame or the stop"),
        }
        assert!(frames.len() < 10, "the run must stop");
    }
    // the pass ends once cursor + width == len + 2: three frames, cursor 4
    assert_eq!(frames, vec!["abc\n", "bcd\n", "cde\n"]);
    assert_eq!(eng.cursor, 4);
    assert!(eng.stopped);
    assert!(matches!(eng.tick(&input), TickStep::Stop));
}

#[test]
fn malformed_value_rejects_once_then_idles() {
    let mut config = cfg(10);
    config.structured = true;
    let mut eng = MarqueeEngine::new(config);
    let mut reg = TextRegister::new();
    reg.store(Some(s("{not json}")));

    let snapshot = reg.read();
    let step = eng.tick(&snapshot);
    assert!(matches!(
        step,
        TickStep::Reject(DecodeError::Malformed(_))
    ));
    // the rejecting tick emits nothing and leaves the animation alone
    assert_eq!(eng.cursor, 0);
    assert_eq!(eng.prev, "");

    // the driver then clears the register, so the value is not retried
    reg.clear();
    let snapshot = reg.read();
    assert!(snapshot.is_none());
    assert!(matches!(eng.tick(&snapshot), TickStep::Idle));
}

#[test]
fn register_keeps_only_the_last_write() {
    let mut reg = TextRegister::new();
    assert!(reg.read().is_none());
    reg.store(Some(s("first")));
    reg.store(Some(s("second")));
    assert_eq!(reg.read().unwrap(), "second");
    reg.store(None);
    assert!(reg.read().is_none());
}

#[test]
fn same_line_frames_overwrite_and_erase() {
    let mut config = cfg(10);
    config.same_line = true;
    let mut eng = MarqueeEngine::new(config);
    assert_eq!(emitted(eng.tick(&Some(s("hello")))), "\rhello");
    // a shorter frame pads with spaces over the leftover characters
    assert_eq!(emitted(eng.tick(&Some(s("hi")))), "\rhi   ");
    assert_eq!(eng.prev_frame, "hi");
}

#[test]
fn tick_payload_animates_a_payload_directly() {
    let mut eng = MarqueeEngine::new(cfg(3));
    let raw = s("abcdef");
    let p = Payload {
        prefix: s("["),
        content: s("abcdef"),
        suffix: s("]"),
        rotate: true,
    };
    assert_eq!(emitted(eng.tick_payload(&raw, &p)), "[abc]\n");
    assert_eq!(emitted(eng.tick_payload(&raw, &p)), "[bcd]\n");
}

#[test]
fn changed_raw_value_resets_even_with_equal_content() {
    let mut config = cfg(3);
    config.structured = true;
    let mut eng = MarqueeEngine::new(config);
    let first = Some(s("{\"content\":\"hello\"}"));
    assert_eq!(emitted(eng.tick(&first)), "hel\n");
    assert_eq!(emitted(eng.tick(&first)), "ell\n");
    assert_eq!(eng.cursor, 2);
    // a different raw value with the very same content starts over
    let second = Some(s("{\"content\":\"hello\" }"));
    assert_eq!(emitted(eng.tick(&second)), "hel\n");
    assert_eq!(eng.cursor, 1);
}
