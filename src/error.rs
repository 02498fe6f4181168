use vstd::prelude::*;

verus! {

/// Why a call to the model failed.
#[derive(Clone, Debug, PartialEq, Eq)]
pub enum GeminiError {
    /// A required setting (named here) is missing or empty.
    Config(String),
    /// The connection failed; the transport's own message.
    Transport(String),
    /// The service answered with a status outside 200..=299, and this body.
    Api { status: u16, body: String },
    /// The body was not a response that could be read; the parser's message.
    Decode(String),
    /// The response held no usable text.
    NoResponseText,
}

} // verus!
