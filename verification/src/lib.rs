//! Verified core of a terminal typing test: the letters and words being typed,
//! the mode picker, a tree selection widget, the multiplayer wire protocol and
//! the decisions of the top-level application loop.

pub mod data;
pub mod keys;
pub mod model;
pub mod multiplayer;
pub mod text;
pub mod tui;
pub mod typing_test;
