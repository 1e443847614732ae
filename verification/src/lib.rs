//! Summarising the text of a PDF document with a chat-completion service.
//!
//! The crate holds the decisions of one summarisation and none of its input or
//! output: a [`session::Session`] is told what happened (a status arrived, a
//! body was read, text was extracted) and answers with what to do next.
//! Whoever drives it performs the file reads and the HTTP exchanges.

pub mod error;
pub mod json;
pub mod laws;
pub mod payload;
pub mod reply;
pub mod request;
pub mod session;
pub mod wire;
