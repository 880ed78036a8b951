//! A small code-analysis service library.
//!
//! Two mutually exclusive service behaviours share one front door:
//! counting the lines of a submitted snippet locally, or forwarding the
//! snippet to a chat-completion API and relaying the first suggestion.
//! This crate holds the request/response records and every decision the
//! service makes, each with a proved contract; the surrounding binary
//! only moves bytes between this logic and the network.

pub mod chat;
pub mod lines;
pub mod model;
pub mod service;
