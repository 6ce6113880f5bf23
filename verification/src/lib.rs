//! Verified core of a baby monitor that captures sound, gates it on its
//! signal-to-noise ratio and streams it while the child is heard.
//!
//! The modules hold the decisions of the program: how the terminal interface
//! reacts to keys, how the transmit gate opens and closes, how interleaved
//! audio frames are split and joined, and how a capture device is chosen.

pub mod common;
pub mod devices;
pub mod sender;
pub mod ui;
