//! An in-memory message board: an append-only, ordered log of chat messages
//! that can be read from any offset onward.

pub mod board;
pub mod lemmas;
pub mod message;
pub mod pagination;
pub mod query;
pub mod requests;
