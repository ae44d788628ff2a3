//! Wingman: the core of a terminal chat client.
//!
//! The crate keeps a bounded conversation history, folds a stream of
//! partial responses into one answer, and decides what a line typed by the
//! user means. Network and terminal I/O are left to the caller.

pub mod chat;
pub mod persistence;
pub mod session;
pub mod terminal;
