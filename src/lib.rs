//! Elapsed-time progress for a terminal dashboard: interval arithmetic, progress
//! bars, the view state machine, frame composition and differential redraw.

pub mod clock;
pub mod text;
pub mod progress;
pub mod frame;
pub mod bar;
pub mod config;
pub mod timer;
pub mod blocks;
pub mod view;
pub mod compose;
