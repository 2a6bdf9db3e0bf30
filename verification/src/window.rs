//! The window side of the scheduler: the per-window render state, the table
//! of windows, and the handlers that turn events into state changes and
//! effects.

pub mod application;
pub mod effects;
pub mod events;
pub mod laws;
pub mod route;
pub mod route_table;
pub mod settings;
pub mod units;
pub mod window_wrapper;
