//! Tracking tokens that let tests check that a component releases each
//! resource it owns exactly once: never leaked, never released twice.

pub mod drop_marker;
pub mod drop_watcher;
pub mod lemmas;
