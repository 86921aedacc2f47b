//! A stereo tone generator for a synchronous serial audio transmitter.
//!
//! The crate holds the decisions of the transmitter's firmware as plain
//! functions on plain values: which amplitude belongs to which phase, how the
//! phase advances, and what one service of the peripheral does.

pub mod bringup;
pub mod config;
pub mod diagnostics;
pub mod engine;
pub mod phase;
pub mod waveform;
