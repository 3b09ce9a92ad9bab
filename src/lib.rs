//! A content-moderating relay in front of a text-generation backend.
//!
//! Every prompt sent to the backend and every piece of generated content that
//! comes back is assessed by an external policy service before it reaches the
//! caller. The modules here hold the decisions: how a verdict is read, when a
//! fragment needs assessing at all, which chunk of a streamed response may be
//! released and when, and how each failure is reported. The I/O around them
//! (HTTP serving, the backend and policy-service connections) lives outside.

mod external;
pub mod text;

pub mod config;
pub mod handlers;
pub mod ollama;
pub mod types;
pub mod security;
pub mod stream;
