//! Debounced edge-triggered color cycling for a single addressable RGB LED.
//!
//! The crate models the one behavior of a push-button NeoPixel demo that is
//! worth stating precisely: a controller polls a digital input, detects level
//! transitions, and on each transition decides a write for the LED driver —
//! a pseudo-randomly selected palette color (possibly at half brightness) on
//! a falling edge, the off color on a rising edge, and nothing otherwise.
//! Peripheral bring-up, the bit-level LED protocol and the busy-wait hold
//! stay with the hardware layer, which feeds pin levels and random draws in
//! and carries the decided writes out.

pub mod color;
pub mod controller;
pub mod select;

pub use color::MyColor;
pub use controller::{Controller, Edge, LedWrite, PollSample, run_polls};
pub use select::{default_palette, select_color};
