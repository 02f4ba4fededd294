//! The uniform error channel of every operation.

use vstd::prelude::*;

verus! {

/// Why an operation returned no result.
#[derive(Debug, PartialEq, Eq)]
pub enum ApiError {
    /// The exchange itself failed: no response arrived. Carries the
    /// transport's description of what went wrong.
    Transport(String),
    /// The server answered with a status outside 200..=299. Carries the raw
    /// response body.
    Api(String),
    /// The server answered with success, but the body does not have the
    /// expected shape. Carries the decoder's description.
    Decode(String),
}

/// The mathematical value of an [`ApiError`].
pub enum Failure {
    Transport(Seq<char>),
    Api(Seq<char>),
    Decode(Seq<char>),
}

impl Failure {
    /// The text that the failure carries.
    pub open spec fn message(self) -> Seq<char> {
        match self {
            Failure::Transport(text) => text,
            Failure::Api(text) => text,
            Failure::Decode(text) => text,
        }
    }
}

impl View for ApiError {
    type V = Failure;

    open spec fn view(&self) -> Failure {
        match self {
            ApiError::Transport(text) => Failure::Transport(text@),
            ApiError::Api(text) => Failure::Api(text@),
            ApiError::Decode(text) => Failure::Decode(text@),
        }
    }
}

impl ApiError {
    /// The text that the error carries: the transport's description, the
    /// response body, or the decoder's description.
    pub fn message(&self) -> (text: String)
        ensures
            text@ == self@.message(),
    {
        match self {
            ApiError::Transport(text) => text.clone(),
            ApiError::Api(text) => text.clone(),
            ApiError::Decode(text) => text.clone(),
        }
    }

    /// Gives up the error for the text that it carries.
    pub fn into_message(self) -> (text: String)
        ensures
            text@ == self@.message(),
    {
        match self {
            ApiError::Transport(text) => text,
            ApiError::Api(text) => text,
            ApiError::Decode(text) => text,
        }
    }
}

} // verus!
