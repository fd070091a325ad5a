//! A bounded "progress clock": a named counter with a size clamped to
//! [2, 12], a tick count clamped to [0, size], a fixed polarity flag, a
//! fixed unique identifier, and a textual encoding that round-trips the
//! whole state.

pub mod clock;
pub mod codec;
