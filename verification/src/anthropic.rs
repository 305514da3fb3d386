use std::time::Duration;

use vstd::prelude::*;

verus! {

/// The error codes of the Anthropic API.
#[derive(Debug, PartialEq, Eq, Structural, Clone, Copy)]
pub enum ApiErrorCode {
    InvalidRequestError,
    AuthenticationError,
    PermissionError,
    NotFoundError,
    RequestTooLarge,
    RateLimitError,
    ApiError,
    OverloadedError,
}

/// An error that the Anthropic API answered a request with.
#[derive(Debug)]
pub struct ApiError {
    /// The code, where the API sent one that is known.
    pub code: Option<ApiErrorCode>,
    /// The number of tokens that the message reports for a prompt that is too long.
    pub prompt_tokens: Option<u64>,
    /// The error as the client reported it.
    pub source: anyhow::Error,
}

/// What a request to the Anthropic API can fail with.
#[derive(Debug)]
pub enum AnthropicError {
    SerializeRequest(serde_json::Error),
    BuildRequestBody(http::Error),
    HttpSend(anyhow::Error),
    DeserializeResponse(serde_json::Error),
    ReadResponse(std::io::Error),
    HttpResponseError { status: u16, body: String },
    RateLimit { retry_after: Duration },
    ApiError(ApiError),
    UnexpectedResponseFormat(String),
}

} // verus!
