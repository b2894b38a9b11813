//! Core of a terminal tree navigator: a bounded, filterable view of a
//! directory subtree, the panel state machine that drives it, and the
//! cooperative cancellation token that keeps background work interruptible.

pub mod dam;
pub mod pattern;
pub mod tree;
pub mod tree_build;
pub mod browser_state;
pub mod browser_verbs;
pub mod laws;
