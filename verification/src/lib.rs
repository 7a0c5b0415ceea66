//! A verified client core for the Cleverbot conversational web service.
//!
//! The crate holds the pure logic of the client: the bounded conversation
//! history, the payload encoder with its derived checksum fragment, the
//! cookie extraction rule, response classification, and the single-retry
//! state machine. Network transport is left to the caller, which feeds
//! raw replies into the state machine through plain values.

pub mod checksum;
pub mod client;
pub mod cookie;
pub mod encode;
pub mod error;
pub mod history;
pub mod payload;
pub mod response;
pub mod text;

pub use client::{Cleverbot, CleverbotBuilder, CookieReply, Exchange, FirstOutcome, Reply};
pub use encode::pythonic_encode;
pub use error::Error;
pub use history::History;
