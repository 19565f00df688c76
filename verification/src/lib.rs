//! Verified core of a screen, window and audio capture engine.
//!
//! The library models the data and decisions of a native capture session:
//! rational presentation times with exact rescaling and comparison, the
//! retain/release discipline for reference-counted native objects, the
//! copy-on-receive rule for transient sample buffers, the stream session
//! state machine, and the configuration and filter records a session is
//! built from. Everything that touches the operating system itself lives
//! outside this crate; the library works on plain values and is verified.

pub mod geometry;
pub mod time;
pub mod clock;
pub mod format;
pub mod config;
pub mod handle;
pub mod content;
pub mod sample;
pub mod stream;
