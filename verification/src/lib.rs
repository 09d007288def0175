//! Host-side streamer for BLE hearing aids speaking the ASHA
//! (Audio Streaming for Hearing Aids) peripheral profile.
//!
//! This crate holds the verified core: the ASHA data model and its
//! byte-level encodings, the peripheral binding rules, the control-plane
//! protocol, the PCM pipeline, and the 20 ms frame scheduler. All
//! Bluetooth, audio-capture and timing I/O lives outside, in a thin
//! driver that feeds events into this state machine and carries its
//! decisions out to the sockets.

pub mod binder;
pub mod caps;
pub mod frames;
pub mod pipeline;
pub mod props;
pub mod session;
