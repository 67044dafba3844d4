//! A single-screen todo list: an item store with a clamped selection, a
//! two-view focus state machine, the key dispatcher that drives both, and the
//! decisions behind each painted frame.

pub mod store;
pub mod laws;
pub mod state;
pub mod input;
pub mod render;
