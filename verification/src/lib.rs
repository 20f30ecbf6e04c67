//! Session statistics and reaction timing for a single-character typing drill.
//!
//! A drill shows one printable ASCII character at a time, times how long the
//! answer takes, and keeps a per-character history of hits and misses. This
//! crate holds the bookkeeping: the character identities, the stopwatch, the
//! attempt log with its summaries and report, and the key lookup for the
//! on-screen keyboard.

pub mod ascii_chars;
pub mod highlight;
pub mod history;
pub mod report;
pub mod session;
pub mod stats;
pub mod svg_keyboard;
pub mod text;
pub mod timer;
