//! A verified composition engine for a single-line terminal status bar.
//!
//! The engine takes independently rendered, pre-styled text segments with
//! known display widths, fits them into a fixed terminal width (inserting a
//! spacer or falling back to a warning message on overflow), concatenates
//! them into one styled line, and maps a mouse click's column back to the
//! tab segment it struck.

pub mod block;
pub mod paint;
pub mod segments;
pub mod compose;
pub mod state;
