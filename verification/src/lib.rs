//! Decision core of a desktop shell: what the native side of a webview
//! application asks of its host runtime, and what it answers to the front end.
//!
//! The host runtime owns the window, the event loop and the command bridge.
//! This crate holds the decisions made around it: the one command that the
//! front end may invoke, and the life of the shell from start to termination.

pub mod attention;
pub mod history;
pub mod lifecycle;
