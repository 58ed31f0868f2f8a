//! Editing the signal plan of one intersection: cycles, per-turn priorities,
//! and the overlay of map edits that a plan is committed to.
pub mod turns;
pub mod cycle;
pub mod signal;
pub mod edits;
pub mod editor;
pub mod presets;
