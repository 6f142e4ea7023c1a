//! Core logic of a keyboard-navigable repository list for a terminal UI:
//! a selectable list with cyclic navigation, the decision rules of a
//! fixed-tick-rate input loop, and startup configuration validation.

pub mod list;
pub mod source;
pub mod ui;
