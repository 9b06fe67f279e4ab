//! Watches a single media-player process and mutes its audio session while
//! its window title indicates an advertisement.
//!
//! The crate holds the decision logic only: text classification, process and
//! window selection, the differential mute decision, and the polling state
//! machine. All operating-system queries (process table, window enumeration,
//! audio sessions) are performed by the surrounding program, which feeds the
//! observed plain values into these functions.

pub mod audio;
pub mod locator;
pub mod monitor;
pub mod text;
pub mod title;
pub mod window;
