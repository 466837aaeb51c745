//! The errors of the client.
use vstd::prelude::*;

verus! {

/// The error of `tungstenite`, carried and never looked into.
#[verifier::external_type_specification]
#[verifier::external_body]
pub struct ExWsError(tokio_tungstenite::tungstenite::Error);

/// The error of `serde_json`, carried and never looked into.
#[verifier::external_type_specification]
#[verifier::external_body]
pub struct ExJsonError(serde_json::Error);

/// What can go wrong while a socket is opened, read or written.
#[derive(Debug)]
pub enum APIError {
    /// The websocket failed.
    Websocket(tokio_tungstenite::tungstenite::Error),
    /// A message body did not decode.
    Serde(serde_json::Error),
    /// Anything else, in words.
    Other(String),
}

impl APIError {
    /// The error is [`APIError::Other`] with this text.
    pub open spec fn says(self, text: Seq<char>) -> bool {
        self matches APIError::Other(words) && words@ == text
    }
}

} // verus!
