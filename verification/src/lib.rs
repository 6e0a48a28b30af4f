//! Incremental search against a package registry from a terminal: the rules
//! that turn keystrokes into queries, queries into requests, and responses
//! into repaints of three fixed screen regions.

pub mod text;
pub mod dimension;
pub mod state;
pub mod results;
pub mod screen;
pub mod request;
pub mod worker;
pub mod channel;
pub mod session;
