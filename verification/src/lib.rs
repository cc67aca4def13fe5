//! A marquee renderer: a bounded window of text that scrolls over a
//! longer value, fed through a single-slot register and driven one tick
//! at a time.
//!
//! [`register::TextRegister`] holds the latest raw value;
//! [`decode`] turns a raw value into a [`payload::Payload`] when
//! structured mode is on; [`render`] computes one frame's window and the
//! next cursor; [`engine::MarqueeEngine`] ties them together per tick
//! and decides what the driver writes; [`laws`] states and proves how
//! frames and cursors relate across ticks.

pub mod decode;
pub mod engine;
pub mod laws;
pub mod payload;
pub mod register;
pub mod render;
pub mod text;
