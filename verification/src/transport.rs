//! One HTTP exchange and its classification.
//!
//! The transport is stateless: a request goes in, and what came back is
//! classified once, as a body to decode or as an error.

use crate::envelope::Envelope;
use crate::failure::{ApiError, Failure};
use crate::request::{Request, RequestView, params_view};
use vstd::prelude::*;

verus! {

/// What the transport observed of one exchange.
#[derive(Debug, PartialEq, Eq)]
pub enum Exchange {
    /// No response arrived: the connection failed, timed out, or the name
    /// did not resolve. Carries the transport's description.
    Failed(String),
    /// The server answered.
    Answered { status: u16, body: String },
}

/// The mathematical value of an [`Exchange`].
pub enum ExchangeView {
    Failed(Seq<char>),
    Answered { status: u16, body: Seq<char> },
}

impl View for Exchange {
    type V = ExchangeView;

    open spec fn view(&self) -> ExchangeView {
        match self {
            Exchange::Failed(description) => ExchangeView::Failed(description@),
            Exchange::Answered { status, body } => ExchangeView::Answered {
                status: *status,
                body: body@,
            },
        }
    }
}

/// A status that reports success: 200 to 299.
pub open spec fn success(status: u16) -> bool {
    200 <= status <= 299
}

/// What an exchange comes to: the body of a successful response, the
/// transport's description of a failed exchange, or the raw body of a
/// response with any other status.
pub open spec fn classify(exchange: ExchangeView) -> Result<Seq<char>, Failure> {
    match exchange {
        ExchangeView::Failed(description) => Err(Failure::Transport(description)),
        ExchangeView::Answered { status, body } => if success(status) {
            Ok(body)
        } else {
            Err(Failure::Api(body))
        },
    }
}

/// The mathematical value of a classified exchange.
pub open spec fn received_view(received: Result<String, ApiError>) -> Result<Seq<char>, Failure> {
    match received {
        Ok(body) => Ok(body@),
        Err(error) => Err(error@),
    }
}

/// Whether `status` reports success.
pub fn is_success(status: u16) -> (yes: bool)
    ensures
        yes == success(status),
{
    200 <= status && status < 300
}

/// The two ends of one exchange: what is sent, and what is made of the
/// answer.
pub struct RequestSender {}

impl RequestSender {
    /// Puts together the request that the transport executes.
    pub fn send(url: String, auth_header: String, params: Vec<(String, String)>) -> (request:
        Request)
        ensures
            request@ == (RequestView {
                url: url@,
                auth_header: auth_header@,
                params: params_view(params@),
            }),
    {
        Request { url, auth_header, params }
    }

    /// Classifies one exchange: `Ok` with the body where the server answered
    /// with success, else the error that says what happened.
    pub fn receive(exchange: Exchange) -> (received: Result<String, ApiError>)
        ensures
            received_view(received) == classify(exchange@),
    {
        match exchange {
            Exchange::Failed(description) => Err(ApiError::Transport(description)),
            Exchange::Answered { status, body } => if is_success(status) {
                Ok(body)
            } else {
                Err(ApiError::Api(body))
            },
        }
    }

    /// Takes what the decoder made of a successful body. A body that does
    /// not decode is an error of its own kind, never a panic.
    pub fn decoded<D>(outcome: Result<Envelope<D>, String>) -> (page: Result<Envelope<D>, ApiError>)
        ensures
            match outcome {
                Ok(envelope) => page == Ok::<Envelope<D>, ApiError>(envelope),
                Err(description) => page matches Err(error) && error@ == Failure::Decode(
                    description@,
                ),
            },
    {
        match outcome {
            Ok(envelope) => Ok(envelope),
            Err(description) => Err(ApiError::Decode(description)),
        }
    }
}

/// A response with a status outside 200 to 299 comes to an error that
/// carries the response body as its message, whatever the body holds: no
/// record is made of it. This is what the retrieval of an account returns
/// for an identifier that the server turns down.
pub proof fn law_rejection_carries_body(status: u16, body: Seq<char>)
    requires
        !success(status),
    ensures
        classify(ExchangeView::Answered { status, body }) == Err::<Seq<char>, Failure>(
            Failure::Api(body),
        ),
        Failure::Api(body).message() == body,
{
}

} // verus!
