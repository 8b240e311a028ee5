//! Completion-session library for an interactive chat client.
//!
//! The library owns the conversational context, decides under a configurable
//! dump policy when that context is persisted, builds streaming completion
//! requests, and folds the resulting stream of chunk events into an ordered
//! sequence of text fragments.

pub mod args;
pub mod codec;
pub mod errors;
pub mod persistence;
pub mod policy;
pub mod repl;
pub mod session;
pub mod stream;
pub mod transport;
