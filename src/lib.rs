//! A client for Gemini generative models: the message model, the extraction of an
//! answer from a response, a bounded conversation history, and the pure parts of the
//! transport (endpoint, request, status). The network itself is left to the caller.
pub mod text;
pub mod models;
pub mod error;
pub mod client;
pub mod api;
