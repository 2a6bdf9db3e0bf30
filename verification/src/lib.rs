//! Adaptive frame scheduling and animation pacing for a rendered window.
//!
//! The crate decides when a window is redrawn, how far its animations are
//! advanced on each redraw, and when the event loop has to wake up next. It
//! performs no drawing and no window-system calls itself: every function maps
//! the current state and what was observed to the next state and to what has
//! to be done. All times are nanoseconds on the caller's monotonic clock.

pub mod buffer;
pub mod clock;
pub mod decision;
pub mod time;
pub mod window;
