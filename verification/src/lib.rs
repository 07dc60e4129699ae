//! Verified core of a single-device audio capture session.
//!
//! The library covers the decision logic of the pipeline: resolving a
//! device from an enumerated candidate list, the mode handshake over a
//! four-character property key, physical/logical stream format
//! negotiation, the capture state machine, and the sample accumulator
//! with its continuity check.  The platform audio calls themselves live
//! outside the library and hand plain values in and out.

pub mod accumulator;
pub mod encode;
pub mod engine;
pub mod format;
pub mod fourcc;
pub mod handshake;
pub mod mode;
pub mod resolver;
pub mod strutil;

