//! Core of a software-defined-radio capture pipeline.
//!
//! The library models the signal path of a single-device RTL tuner capture
//! tool: calibrated conversion of raw I/Q bytes to complex baseband samples,
//! the session state machine that sequences hardware configuration, the
//! duration accounting that bounds an acquisition run, and the exact byte
//! layout of the emitted sample stream. Hardware access, command-line
//! handling and the floating-point DSP collaborators live outside the
//! library; they drive these state machines and are handed plain values.

pub mod acquisition;
pub mod codec;
pub mod errors;
pub mod sample;
pub mod session;
