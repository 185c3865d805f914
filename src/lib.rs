//! A command-line client library that classifies a prompt, routes it to a
//! backend model and follows the model's streamed answer.

pub mod analytics;
pub mod framing;
pub mod input;
pub mod ollama;
pub mod router;
pub mod session;
