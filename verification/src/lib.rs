//! A frame-sequence animation core.
//!
//! Given a clip — an inclusive range of frame indices into a sprite-sheet
//! grid, a table of per-frame display durations, and a loop flag — and a
//! countdown timer, the library converts elapsed time into discrete frame
//! transitions: at most one per tick, looping or freezing at the end as
//! configured. Image loading and rendering are external collaborators; this
//! crate owns only the timing and advance logic.
//!
//! Durations and elapsed times are integer time units of the caller's
//! choosing (milliseconds, microseconds, ...), used consistently.

pub mod clip;
pub mod error;
pub mod playback;
pub mod timer;
