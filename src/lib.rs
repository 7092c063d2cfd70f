//! Input-to-action dispatch core of a terminal dashboard: key chords, the
//! action queue, pane focus and the dispatch loop's decisions.

pub mod action;
pub mod app;
pub mod chord;
pub mod components;
pub mod data;
pub mod focus;
pub mod keys;
pub mod laws;
pub mod queue;
