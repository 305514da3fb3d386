use std::sync::Arc;
use std::time::Duration;

use vstd::prelude::*;

use crate::anthropic::{AnthropicError, ApiError, ApiErrorCode};
use crate::ids::LanguageModelToolUseId;
use crate::outside::{debug_duration, debug_io_error, debug_json_error, debug_str};
use crate::text::{decimal, join};

verus! {

/// If we get a rate limit error that doesn't tell us when we can retry,
/// default to waiting this many seconds before retrying.
const DEFAULT_RATE_LIMIT_RETRY_AFTER_SECS: u64 = 4;

/// What the completion of a request can fail with.
#[derive(Debug)]
pub enum LanguageModelCompletionError {
    RateLimitExceeded { retry_after: Duration },
    BadInputJson {
        id: LanguageModelToolUseId,
        tool_name: Arc<str>,
        raw_input: Arc<str>,
        json_parse_error: String,
    },
    Overloaded,
    Other(anyhow::Error),
    BadRequestFormat,
    AuthenticationError,
    PermissionError,
    ApiEndpointNotFound,
    PromptTooLarge { tokens: Option<u64> },
    ApiInternalServerError,
    ApiReadResponseError(std::io::Error),
    HttpResponseError { status: u16, body: String },
    SerializeRequest(serde_json::Error),
    BuildRequestBody(http::Error),
    HttpSend(anyhow::Error),
    DeserializeResponse(serde_json::Error),
    UnknownResponseFormat(String),
}

/// How long to wait after a rate limit error that doesn't tell us when we can retry.
fn default_rate_limit_retry_after() -> (retry_after: Duration)
    ensures
        retry_after == crate::outside::duration_from_secs(4),
{
    Duration::from_secs(DEFAULT_RATE_LIMIT_RETRY_AFTER_SECS)
}

impl LanguageModelCompletionError {
    /// The error that stands for an API error.
    pub open spec fn of_api_error(error: ApiError) -> Self {
        match error.code {
            Some(ApiErrorCode::InvalidRequestError) => Self::BadRequestFormat,
            Some(ApiErrorCode::AuthenticationError) => Self::AuthenticationError,
            Some(ApiErrorCode::PermissionError) => Self::PermissionError,
            Some(ApiErrorCode::NotFoundError) => Self::ApiEndpointNotFound,
            Some(ApiErrorCode::RequestTooLarge) => Self::PromptTooLarge {
                tokens: error.prompt_tokens,
            },
            Some(ApiErrorCode::RateLimitError) => Self::RateLimitExceeded {
                retry_after: crate::outside::duration_from_secs(4),
            },
            Some(ApiErrorCode::ApiError) => Self::ApiInternalServerError,
            Some(ApiErrorCode::OverloadedError) => Self::Overloaded,
            None => Self::Other(error.source),
        }
    }

    /// The error that stands for a failed request to the Anthropic API.
    pub open spec fn of_anthropic_error(error: AnthropicError) -> Self {
        match error {
            AnthropicError::SerializeRequest(error) => Self::SerializeRequest(error),
            AnthropicError::BuildRequestBody(error) => Self::BuildRequestBody(error),
            AnthropicError::HttpSend(error) => Self::HttpSend(error),
            AnthropicError::DeserializeResponse(error) => Self::DeserializeResponse(error),
            AnthropicError::ReadResponse(error) => Self::ApiReadResponseError(error),
            AnthropicError::HttpResponseError { status, body } => Self::HttpResponseError {
                status,
                body,
            },
            AnthropicError::RateLimit { retry_after } => Self::RateLimitExceeded { retry_after },
            AnthropicError::ApiError(api_error) => Self::of_api_error(api_error),
            AnthropicError::UnexpectedResponseFormat(error) => Self::UnknownResponseFormat(error),
        }
    }

    /// The message for this error, with `detail` as the text of what the error carries.
    pub open spec fn message(self, detail: Seq<char>) -> Seq<char> {
        match self {
            Self::RateLimitExceeded { .. } => "rate limit exceeded, retry after "@ + detail,
            Self::BadInputJson { .. } => "received bad input JSON"@,
            Self::Overloaded => "language model provider's API is overloaded"@,
            Self::Other(_) => detail,
            Self::BadRequestFormat =>
                "invalid request format to language model provider's API"@,
            Self::AuthenticationError =>
                "authentication error with language model provider's API"@,
            Self::PermissionError => "permission error with language model provider's API"@,
            Self::ApiEndpointNotFound => "language model provider API endpoint not found"@,
            Self::PromptTooLarge { .. } => "prompt too large for context window"@,
            Self::ApiInternalServerError =>
                "internal server error in language model provider's API"@,
            Self::ApiReadResponseError(_) =>
                "I/O error reading response from language model provider's API: "@ + detail,
            Self::HttpResponseError { .. } =>
                "HTTP response error from language model provider's API: status "@ + detail,
            Self::SerializeRequest(_) =>
                "error serializing request to language model provider API: "@ + detail,
            Self::BuildRequestBody(_) =>
                "error building request body to language model provider API: "@ + detail,
            Self::HttpSend(_) =>
                "error sending HTTP request to language model provider API: "@ + detail,
            Self::DeserializeResponse(_) =>
                "error deserializing language model provider API response: "@ + detail,
            Self::UnknownResponseFormat(_) =>
                "unexpected language model provider API response format: "@ + detail,
        }
    }

    /// `detail` is the text of what this error carries, as far as its message shows it.
    pub open spec fn details(self, detail: Seq<char>) -> bool {
        match self {
            Self::RateLimitExceeded { retry_after } =>
                detail == crate::outside::duration_debug_text(retry_after),
            Self::HttpResponseError { status, body } =>
                detail == crate::text::decimal_text(status as nat) + " - "@
                    + crate::outside::str_debug_text(body@),
            Self::UnknownResponseFormat(format) => detail == format@,
            Self::Other(error) => crate::text::displays_as(error, detail),
            Self::SerializeRequest(error) => crate::text::displays_as(error, detail),
            Self::BuildRequestBody(error) => crate::text::displays_as(error, detail),
            Self::HttpSend(error) => crate::text::displays_as(error, detail),
            Self::DeserializeResponse(error) => crate::text::displays_as(error, detail),
            Self::ApiReadResponseError(error) =>
                crate::outside::io_error_debugs_as(error, detail),
            _ => detail == Seq::<char>::empty(),
        }
    }

    /// The text of what this error carries, as its message shows it.
    fn detail(&self) -> (detail: String)
        ensures
            self.details(detail@),
    {
        match self {
            Self::RateLimitExceeded { retry_after } => debug_duration(retry_after),
            Self::HttpResponseError { status, body } => {
                let status = decimal(*status as u64);
                let body = debug_str(body.as_str());
                join(join(status.as_str(), " - ").as_str(), body.as_str())
            },
            Self::UnknownResponseFormat(format) => format.clone(),
            Self::Other(error) => error.to_string(),
            Self::SerializeRequest(error) => error.to_string(),
            Self::BuildRequestBody(error) => error.to_string(),
            Self::HttpSend(error) => error.to_string(),
            Self::DeserializeResponse(error) => error.to_string(),
            Self::ApiReadResponseError(error) => debug_io_error(error),
            _ => String::new(),
        }
    }

    /// Writes the message for this error, with `detail` as the text of what the error carries.
    pub fn message_with(&self, detail: &str) -> (message: String)
        ensures
            message@ == self.message(detail@),
    {
        match self {
            Self::RateLimitExceeded { .. } => join("rate limit exceeded, retry after ", detail),
            Self::BadInputJson { .. } => "received bad input JSON".to_string(),
            Self::Overloaded => "language model provider's API is overloaded".to_string(),
            Self::Other(_) => detail.to_string(),
            Self::BadRequestFormat =>
                "invalid request format to language model provider's API".to_string(),
            Self::AuthenticationError =>
                "authentication error with language model provider's API".to_string(),
            Self::PermissionError =>
                "permission error with language model provider's API".to_string(),
            Self::ApiEndpointNotFound =>
                "language model provider API endpoint not found".to_string(),
            Self::PromptTooLarge { .. } => "prompt too large for context window".to_string(),
            Self::ApiInternalServerError =>
                "internal server error in language model provider's API".to_string(),
            Self::ApiReadResponseError(_) =>
                join("I/O error reading response from language model provider's API: ", detail),
            Self::HttpResponseError { .. } =>
                join("HTTP response error from language model provider's API: status ", detail),
            Self::SerializeRequest(_) =>
                join("error serializing request to language model provider API: ", detail),
            Self::BuildRequestBody(_) =>
                join("error building request body to language model provider API: ", detail),
            Self::HttpSend(_) =>
                join("error sending HTTP request to language model provider API: ", detail),
            Self::DeserializeResponse(_) =>
                join("error deserializing language model provider API response: ", detail),
            Self::UnknownResponseFormat(_) =>
                join("unexpected language model provider API response format: ", detail),
        }
    }

    /// The message for this error.
    pub fn to_string(&self) -> (message: String)
        ensures
            exists|detail: Seq<char>|
                #[trigger] self.details(detail) && message@ == self.message(detail),
            *self matches Self::RateLimitExceeded { retry_after } ==> message@
                == "rate limit exceeded, retry after "@ + crate::outside::duration_debug_text(
                retry_after,
            ),
            *self is BadInputJson ==> message@ == "received bad input JSON"@,
            *self is Overloaded ==> message@ == "language model provider's API is overloaded"@,
            *self is BadRequestFormat ==> message@ == "invalid request format to language model provider's API"@,
            *self is AuthenticationError ==> message@ == "authentication error with language model provider's API"@,
            *self is PermissionError ==> message@ == "permission error with language model provider's API"@,
            *self is ApiEndpointNotFound ==> message@ == "language model provider API endpoint not found"@,
            *self is PromptTooLarge ==> message@ == "prompt too large for context window"@,
            *self is ApiInternalServerError ==> message@ == "internal server error in language model provider's API"@,
            *self matches Self::HttpResponseError { status, body } ==> message@
                == "HTTP response error from language model provider's API: status "@
                + crate::text::decimal_text(status as nat) + " - "@
                + crate::outside::str_debug_text(body@),
            *self matches Self::UnknownResponseFormat(format) ==> message@
                == "unexpected language model provider API response format: "@ + format@,
            *self matches Self::ApiReadResponseError(error) ==> exists|text: Seq<char>|
                #[trigger] crate::outside::io_error_debugs_as(error, text) && message@
                    == "I/O error reading response from language model provider's API: "@ + text,
            *self matches Self::Other(error) ==> exists|shown: String|
                #[trigger] vstd::string::to_string_from_display_ensures(&error, shown) && message@
                    == shown@,
            *self matches Self::SerializeRequest(error) ==> exists|shown: String|
                #[trigger] vstd::string::to_string_from_display_ensures(&error, shown) && message@
                    == "error serializing request to language model provider API: "@ + shown@,
            *self matches Self::BuildRequestBody(error) ==> exists|shown: String|
                #[trigger] vstd::string::to_string_from_display_ensures(&error, shown) && message@
                    == "error building request body to language model provider API: "@ + shown@,
            *self matches Self::HttpSend(error) ==> exists|shown: String|
                #[trigger] vstd::string::to_string_from_display_ensures(&error, shown) && message@
                    == "error sending HTTP request to language model provider API: "@ + shown@,
            *self matches Self::DeserializeResponse(error) ==> exists|shown: String|
                #[trigger] vstd::string::to_string_from_display_ensures(&error, shown) && message@
                    == "error deserializing language model provider API response: "@ + shown@,
    {
        let detail = self.detail();
        assert(self.details(detail@));
        self.message_with(detail.as_str())
    }
}

impl From<ApiError> for LanguageModelCompletionError {
    fn from(error: ApiError) -> (completion_error: Self)
        ensures
            completion_error is BadRequestFormat <==> error.code == Some(
                ApiErrorCode::InvalidRequestError,
            ),
            completion_error is AuthenticationError <==> error.code == Some(
                ApiErrorCode::AuthenticationError,
            ),
            completion_error is PermissionError <==> error.code == Some(
                ApiErrorCode::PermissionError,
            ),
            completion_error is ApiEndpointNotFound <==> error.code == Some(
                ApiErrorCode::NotFoundError,
            ),
            completion_error is PromptTooLarge <==> error.code == Some(
                ApiErrorCode::RequestTooLarge,
            ),
            completion_error is RateLimitExceeded <==> error.code == Some(
                ApiErrorCode::RateLimitError,
            ),
            completion_error is ApiInternalServerError <==> error.code == Some(
                ApiErrorCode::ApiError,
            ),
            completion_error is Overloaded <==> error.code == Some(ApiErrorCode::OverloadedError),
            completion_error is Other <==> error.code is None,
            completion_error matches Self::PromptTooLarge { tokens }
                ==> tokens == error.prompt_tokens,
            completion_error matches Self::RateLimitExceeded { retry_after }
                ==> retry_after == crate::outside::duration_from_secs(4),
            completion_error matches Self::Other(source) ==> source == error.source,
    {
        match error.code {
            Some(code) => match code {
                ApiErrorCode::InvalidRequestError => Self::BadRequestFormat,
                ApiErrorCode::AuthenticationError => Self::AuthenticationError,
                ApiErrorCode::PermissionError => Self::PermissionError,
                ApiErrorCode::NotFoundError => Self::ApiEndpointNotFound,
                ApiErrorCode::RequestTooLarge => Self::PromptTooLarge {
                    tokens: error.prompt_tokens,
                },
                ApiErrorCode::RateLimitError => Self::RateLimitExceeded {
                    retry_after: default_rate_limit_retry_after(),
                },
                ApiErrorCode::ApiError => Self::ApiInternalServerError,
                ApiErrorCode::OverloadedError => Self::Overloaded,
            },
            None => Self::Other(error.source),
        }
    }
}

impl vstd::std_specs::convert::FromSpecImpl<ApiError> for LanguageModelCompletionError {
    open spec fn obeys_from_spec() -> bool {
        true
    }

    open spec fn from_spec(error: ApiError) -> Self {
        Self::of_api_error(error)
    }
}

impl From<AnthropicError> for LanguageModelCompletionError {
    fn from(error: AnthropicError) -> (completion_error: Self)
        ensures
            error matches AnthropicError::SerializeRequest(carried)
                ==> completion_error == Self::SerializeRequest(carried),
            error matches AnthropicError::BuildRequestBody(carried)
                ==> completion_error == Self::BuildRequestBody(carried),
            error matches AnthropicError::HttpSend(carried)
                ==> completion_error == Self::HttpSend(carried),
            error matches AnthropicError::DeserializeResponse(carried)
                ==> completion_error == Self::DeserializeResponse(carried),
            error matches AnthropicError::ReadResponse(carried)
                ==> completion_error == Self::ApiReadResponseError(carried),
            error matches AnthropicError::HttpResponseError { status, body }
                ==> completion_error == (Self::HttpResponseError { status, body }),
            error matches AnthropicError::RateLimit { retry_after }
                ==> completion_error == (Self::RateLimitExceeded { retry_after }),
            error matches AnthropicError::UnexpectedResponseFormat(carried)
                ==> completion_error == Self::UnknownResponseFormat(carried),
            error matches AnthropicError::ApiError(api_error) ==> completion_error
                == <Self as vstd::std_specs::convert::FromSpec<ApiError>>::from_spec(api_error),
    {
        match error {
            AnthropicError::SerializeRequest(error) => Self::SerializeRequest(error),
            AnthropicError::BuildRequestBody(error) => Self::BuildRequestBody(error),
            AnthropicError::HttpSend(error) => Self::HttpSend(error),
            AnthropicError::DeserializeResponse(error) => Self::DeserializeResponse(error),
            AnthropicError::ReadResponse(error) => Self::ApiReadResponseError(error),
            AnthropicError::HttpResponseError { status, body } => Self::HttpResponseError {
                status,
                body,
            },
            AnthropicError::RateLimit { retry_after } => Self::RateLimitExceeded { retry_after },
            AnthropicError::ApiError(api_error) => Self::from(api_error),
            AnthropicError::UnexpectedResponseFormat(error) => Self::UnknownResponseFormat(error),
        }
    }
}

impl vstd::std_specs::convert::FromSpecImpl<AnthropicError> for LanguageModelCompletionError {
    open spec fn obeys_from_spec() -> bool {
        true
    }

    open spec fn from_spec(error: AnthropicError) -> Self {
        Self::of_anthropic_error(error)
    }
}

impl From<anyhow::Error> for LanguageModelCompletionError {
    fn from(error: anyhow::Error) -> (completion_error: Self)
        ensures
            completion_error == Self::Other(error),
    {
        Self::Other(error)
    }
}

impl vstd::std_specs::convert::FromSpecImpl<anyhow::Error> for LanguageModelCompletionError {
    open spec fn obeys_from_spec() -> bool {
        true
    }

    open spec fn from_spec(error: anyhow::Error) -> Self {
        Self::Other(error)
    }
}

/// The failures of a provider's API that are told apart.
#[derive(Debug)]
pub enum LanguageModelKnownError {
    ContextWindowLimitExceeded { tokens: u64 },
    Overloaded,
    ApiInternalServerError,
    ReadResponseError(std::io::Error),
    DeserializeResponse(serde_json::Error),
    UnknownResponseFormat(String),
    RateLimitExceeded { retry_after: Duration },
}

impl LanguageModelKnownError {
    /// The error that an HTTP response status code stands for, if it stands for a known one.
    pub open spec fn of_status(status: u16) -> Option<Self> {
        if status == 429 {
            Some(
                Self::RateLimitExceeded { retry_after: crate::outside::duration_from_secs(4) },
            )
        } else if status == 503 {
            Some(Self::Overloaded)
        } else if 500 <= status <= 599 {
            Some(Self::ApiInternalServerError)
        } else {
            None
        }
    }

    /// Attempts to map an HTTP response status code to a known error type.
    /// Returns None if the status code doesn't map to a specific known error.
    pub fn from_http_response(status: u16, _body: &str) -> (error: Option<Self>)
        ensures
            error == Self::of_status(status),
            error is Some <==> status == 429 || 500 <= status <= 599,
            (error matches Some(Self::RateLimitExceeded { .. })) <==> status == 429,
            (error matches Some(Self::Overloaded)) <==> status == 503,
            (error matches Some(Self::ApiInternalServerError)) <==> 500 <= status <= 599
                && status != 503,
            error matches Some(Self::RateLimitExceeded { retry_after })
                ==> retry_after == crate::outside::duration_from_secs(4),
    {
        match status {
            429 => Some(
                Self::RateLimitExceeded { retry_after: default_rate_limit_retry_after() },
            ),
            503 => Some(Self::Overloaded),
            500..=599 => Some(Self::ApiInternalServerError),
            _ => None,
        }
    }

    /// The message for this error, with `detail` as the text of what the error carries.
    pub open spec fn message(self, detail: Seq<char>) -> Seq<char> {
        match self {
            Self::ContextWindowLimitExceeded { .. } =>
                "Context window limit exceeded ("@ + detail + ")"@,
            Self::Overloaded => "Language model provider's API is currently overloaded"@,
            Self::ApiInternalServerError =>
                "Language model provider's API encountered an internal server error"@,
            Self::ReadResponseError(_) =>
                "I/O error while reading response from language model provider's API: "@ + detail,
            Self::DeserializeResponse(_) =>
                "Error deserializing response from language model provider's API: "@ + detail,
            Self::UnknownResponseFormat(_) =>
                "Language model provider's API returned a response in an unknown format"@,
            Self::RateLimitExceeded { .. } =>
                "Rate limit exceeded for language model provider's API; retry in "@ + detail,
        }
    }

    /// `detail` is the text of what this error carries, as far as its message shows it.
    pub open spec fn details(self, detail: Seq<char>) -> bool {
        match self {
            Self::ContextWindowLimitExceeded { tokens } =>
                detail == crate::text::decimal_text(tokens as nat),
            Self::RateLimitExceeded { retry_after } =>
                detail == crate::outside::duration_debug_text(retry_after),
            Self::ReadResponseError(error) => crate::outside::io_error_debugs_as(error, detail),
            Self::DeserializeResponse(error) =>
                crate::outside::json_error_debugs_as(error, detail),
            _ => detail == Seq::<char>::empty(),
        }
    }

    /// The text of what this error carries, as its message shows it.
    fn detail(&self) -> (detail: String)
        ensures
            self.details(detail@),
    {
        match self {
            Self::ContextWindowLimitExceeded { tokens } => decimal(*tokens),
            Self::RateLimitExceeded { retry_after } => debug_duration(retry_after),
            Self::ReadResponseError(error) => debug_io_error(error),
            Self::DeserializeResponse(error) => debug_json_error(error),
            _ => String::new(),
        }
    }

    /// Writes the message for this error, with `detail` as the text of what the error carries.
    pub fn message_with(&self, detail: &str) -> (message: String)
        ensures
            message@ == self.message(detail@),
    {
        match self {
            Self::ContextWindowLimitExceeded { .. } =>
                join(join("Context window limit exceeded (", detail).as_str(), ")"),
            Self::Overloaded =>
                "Language model provider's API is currently overloaded".to_string(),
            Self::ApiInternalServerError =>
                "Language model provider's API encountered an internal server error".to_string(),
            Self::ReadResponseError(_) => join(
                "I/O error while reading response from language model provider's API: ",
                detail,
            ),
            Self::DeserializeResponse(_) => join(
                "Error deserializing response from language model provider's API: ",
                detail,
            ),
            Self::UnknownResponseFormat(_) =>
                "Language model provider's API returned a response in an unknown format".to_string(),
            Self::RateLimitExceeded { .. } => join(
                "Rate limit exceeded for language model provider's API; retry in ",
                detail,
            ),
        }
    }

    /// The message for this error.
    pub fn to_string(&self) -> (message: String)
        ensures
            exists|detail: Seq<char>|
                #[trigger] self.details(detail) && message@ == self.message(detail),
            *self matches Self::ContextWindowLimitExceeded { tokens } ==> message@
                == "Context window limit exceeded ("@ + crate::text::decimal_text(tokens as nat)
                + ")"@,
            *self is Overloaded ==> message@ == "Language model provider's API is currently overloaded"@,
            *self is ApiInternalServerError ==> message@ == "Language model provider's API encountered an internal server error"@,
            *self is UnknownResponseFormat ==> message@ == "Language model provider's API returned a response in an unknown format"@,
            *self matches Self::RateLimitExceeded { retry_after } ==> message@
                == "Rate limit exceeded for language model provider's API; retry in "@
                + crate::outside::duration_debug_text(retry_after),
            *self matches Self::ReadResponseError(error) ==> exists|text: Seq<char>|
                #[trigger] crate::outside::io_error_debugs_as(error, text) && message@
                    == "I/O error while reading response from language model provider's API: "@
                    + text,
            *self matches Self::DeserializeResponse(error) ==> exists|text: Seq<char>|
                #[trigger] crate::outside::json_error_debugs_as(error, text) && message@
                    == "Error deserializing response from language model provider's API: "@ + text,
    {
        let detail = self.detail();
        assert(self.details(detail@));
        self.message_with(detail.as_str())
    }
}

/// An error that occurred when trying to authenticate the language model provider.
#[derive(Debug)]
pub enum AuthenticateError {
    CredentialsNotFound,
    Other(anyhow::Error),
}

impl AuthenticateError {
    /// `message` is the message for this error.
    pub open spec fn says(self, message: Seq<char>) -> bool {
        match self {
            Self::CredentialsNotFound => message == "credentials not found"@,
            Self::Other(error) => crate::text::displays_as(error, message),
        }
    }

    /// The message for this error.
    pub fn to_string(&self) -> (message: String)
        ensures
            self.says(message@),
            *self is CredentialsNotFound ==> message@ == "credentials not found"@,
            *self matches Self::Other(error) ==> exists|shown: String|
                #[trigger] vstd::string::to_string_from_display_ensures(&error, shown) && message@
                    == shown@,
    {
        match self {
            Self::CredentialsNotFound => "credentials not found".to_string(),
            Self::Other(error) => error.to_string(),
        }
    }
}

impl From<anyhow::Error> for AuthenticateError {
    fn from(error: anyhow::Error) -> (authenticate_error: Self)
        ensures
            authenticate_error == Self::Other(error),
    {
        Self::Other(error)
    }
}

impl vstd::std_specs::convert::FromSpecImpl<anyhow::Error> for AuthenticateError {
    open spec fn obeys_from_spec() -> bool {
        true
    }

    open spec fn from_spec(error: anyhow::Error) -> Self {
        Self::Other(error)
    }
}

/// A rate limit error that doesn't tell when to retry means the same wait, whether it came as an
/// API error code or as an HTTP status.
pub proof fn lemma_rate_limits_wait_alike(error: ApiError)
    requires
        error.code == Some(ApiErrorCode::RateLimitError),
    ensures
        LanguageModelCompletionError::of_api_error(error) matches
            LanguageModelCompletionError::RateLimitExceeded { retry_after }
            && LanguageModelKnownError::of_status(429) == Some(
            LanguageModelKnownError::RateLimitExceeded { retry_after },
        ),
{
}

/// What a conversion of an API error gives, code by code, whatever else the error holds: the
/// conversion keeps to it for every error.
pub proof fn lemma_api_error_of_each_code(error: ApiError)
    ensures
        <LanguageModelCompletionError as vstd::std_specs::convert::FromSpec<ApiError>>::obeys_from_spec(),
        ({
            let converted = <LanguageModelCompletionError as vstd::std_specs::convert::FromSpec<ApiError>>::from_spec(error);
            match error.code {
                Some(ApiErrorCode::InvalidRequestError) => converted is BadRequestFormat,
                Some(ApiErrorCode::AuthenticationError) => converted is AuthenticationError,
                Some(ApiErrorCode::PermissionError) => converted is PermissionError,
                Some(ApiErrorCode::NotFoundError) => converted is ApiEndpointNotFound,
                Some(ApiErrorCode::RequestTooLarge) => converted
                    matches LanguageModelCompletionError::PromptTooLarge { tokens } && tokens
                    == error.prompt_tokens,
                Some(ApiErrorCode::RateLimitError) => converted
                    matches LanguageModelCompletionError::RateLimitExceeded { retry_after }
                    && retry_after == crate::outside::duration_from_secs(4),
                Some(ApiErrorCode::ApiError) => converted is ApiInternalServerError,
                Some(ApiErrorCode::OverloadedError) => converted is Overloaded,
                None => converted matches LanguageModelCompletionError::Other(source) && source
                    == error.source,
            }
        }),
{
}

/// Which error stands for an API error is decided by its code alone. Two errors with the same code
/// are converted alike, but for the prompt size of a request that is too large and for the source
/// of an error without a known code.
pub proof fn lemma_code_alone_decides(a: ApiError, b: ApiError)
    requires
        a.code == b.code,
    ensures
        a.code is Some && a.code != Some(ApiErrorCode::RequestTooLarge) ==> <LanguageModelCompletionError as vstd::std_specs::convert::FromSpec<ApiError>>::from_spec(a)
            == <LanguageModelCompletionError as vstd::std_specs::convert::FromSpec<ApiError>>::from_spec(b),
        a.code is Some && a.prompt_tokens == b.prompt_tokens ==> <LanguageModelCompletionError as vstd::std_specs::convert::FromSpec<ApiError>>::from_spec(a)
            == <LanguageModelCompletionError as vstd::std_specs::convert::FromSpec<ApiError>>::from_spec(b),
        a.code is None && a.source == b.source ==> <LanguageModelCompletionError as vstd::std_specs::convert::FromSpec<ApiError>>::from_spec(a) == <LanguageModelCompletionError as vstd::std_specs::convert::FromSpec<ApiError>>::from_spec(b),
{
}

/// API errors with different codes are told apart after the conversion, and so are different
/// prompt sizes and different sources where the conversion shows them.
pub proof fn lemma_api_errors_are_told_apart(a: ApiError, b: ApiError)
    ensures
        <LanguageModelCompletionError as vstd::std_specs::convert::FromSpec<ApiError>>::from_spec(a) == <LanguageModelCompletionError as vstd::std_specs::convert::FromSpec<ApiError>>::from_spec(b) ==> a.code == b.code,
        a.code == Some(ApiErrorCode::RequestTooLarge) && <LanguageModelCompletionError as vstd::std_specs::convert::FromSpec<ApiError>>::from_spec(a) == <LanguageModelCompletionError as vstd::std_specs::convert::FromSpec<ApiError>>::from_spec(b)
            ==> a.prompt_tokens == b.prompt_tokens,
        a.code is None && <LanguageModelCompletionError as vstd::std_specs::convert::FromSpec<ApiError>>::from_spec(a) == <LanguageModelCompletionError as vstd::std_specs::convert::FromSpec<ApiError>>::from_spec(b) ==> a.source == b.source,
{
}

/// A failed request is converted to the error of the same kind, which carries what the failed
/// request carried.
pub proof fn lemma_failed_request_keeps_what_it_carries(
    json: serde_json::Error,
    body_error: http::Error,
    send: anyhow::Error,
    io: std::io::Error,
    status: u16,
    text: String,
    retry_after: Duration,
    api_error: ApiError,
)
    ensures
        <LanguageModelCompletionError as vstd::std_specs::convert::FromSpec<AnthropicError>>::obeys_from_spec(),
        <LanguageModelCompletionError as vstd::std_specs::convert::FromSpec<AnthropicError>>::from_spec(AnthropicError::SerializeRequest(json))
            == LanguageModelCompletionError::SerializeRequest(json),
        <LanguageModelCompletionError as vstd::std_specs::convert::FromSpec<AnthropicError>>::from_spec(AnthropicError::BuildRequestBody(body_error))
            == LanguageModelCompletionError::BuildRequestBody(body_error),
        <LanguageModelCompletionError as vstd::std_specs::convert::FromSpec<AnthropicError>>::from_spec(AnthropicError::HttpSend(send))
            == LanguageModelCompletionError::HttpSend(send),
        <LanguageModelCompletionError as vstd::std_specs::convert::FromSpec<AnthropicError>>::from_spec(AnthropicError::DeserializeResponse(json))
            == LanguageModelCompletionError::DeserializeResponse(json),
        <LanguageModelCompletionError as vstd::std_specs::convert::FromSpec<AnthropicError>>::from_spec(AnthropicError::ReadResponse(io))
            == LanguageModelCompletionError::ApiReadResponseError(io),
        <LanguageModelCompletionError as vstd::std_specs::convert::FromSpec<AnthropicError>>::from_spec((AnthropicError::HttpResponseError { status, body: text })) == (
        LanguageModelCompletionError::HttpResponseError { status, body: text }),
        <LanguageModelCompletionError as vstd::std_specs::convert::FromSpec<AnthropicError>>::from_spec((AnthropicError::RateLimit { retry_after })) == (
        LanguageModelCompletionError::RateLimitExceeded { retry_after }),
        <LanguageModelCompletionError as vstd::std_specs::convert::FromSpec<AnthropicError>>::from_spec(AnthropicError::UnexpectedResponseFormat(text))
            == LanguageModelCompletionError::UnknownResponseFormat(text),
        <LanguageModelCompletionError as vstd::std_specs::convert::FromSpec<AnthropicError>>::from_spec(AnthropicError::ApiError(api_error)) == <LanguageModelCompletionError as vstd::std_specs::convert::FromSpec<ApiError>>::from_spec(api_error),
{
}

/// Two failed requests that are not API errors are converted alike only if they are the same: the
/// conversion loses nothing of them.
pub proof fn lemma_failed_requests_are_told_apart(a: AnthropicError, b: AnthropicError)
    requires
        !(a is ApiError),
        !(b is ApiError),
    ensures
        <LanguageModelCompletionError as vstd::std_specs::convert::FromSpec<AnthropicError>>::from_spec(a) == <LanguageModelCompletionError as vstd::std_specs::convert::FromSpec<AnthropicError>>::from_spec(b) ==> a == b,
{
}

/// An HTTP failure is never taken for a refusal by the API, nor the other way round.
pub proof fn lemma_http_failures_are_not_api_errors(a: AnthropicError, b: ApiError)
    requires
        !(a is ApiError),
        !(a is RateLimit),
    ensures
        <LanguageModelCompletionError as vstd::std_specs::convert::FromSpec<AnthropicError>>::from_spec(a) != <LanguageModelCompletionError as vstd::std_specs::convert::FromSpec<ApiError>>::from_spec(b),
{
}

/// Which statuses stand for which known error, and that all others stand for none.
pub proof fn lemma_known_statuses(status: u16)
    ensures
        LanguageModelKnownError::of_status(status) is None <==> status != 429 && (status < 500
            || status > 599),
        (LanguageModelKnownError::of_status(status) matches Some(
            LanguageModelKnownError::RateLimitExceeded { .. },
        )) <==> status == 429,
        (LanguageModelKnownError::of_status(status) matches Some(
            LanguageModelKnownError::Overloaded,
        )) <==> status == 503,
        (LanguageModelKnownError::of_status(status) matches Some(
            LanguageModelKnownError::ApiInternalServerError,
        )) <==> 500 <= status <= 599 && status != 503,
{
}

/// No status below 500 but that of a rate limit stands for a known error, and two server errors
/// are taken for the same one unless just one of them says that the server is unavailable.
pub proof fn lemma_statuses_compared(a: u16, b: u16)
    ensures
        500 <= a <= 599 && 500 <= b <= 599 ==> (LanguageModelKnownError::of_status(a)
            == LanguageModelKnownError::of_status(b) <==> (a == 503 <==> b == 503)),
        a == 429 && LanguageModelKnownError::of_status(a) == LanguageModelKnownError::of_status(b)
            ==> b == 429,
        a < 500 && b < 500 && a != 429 && b != 429 ==> LanguageModelKnownError::of_status(a)
            == LanguageModelKnownError::of_status(b),
        500 <= a <= 599 && (b < 500 || b > 599) ==> LanguageModelKnownError::of_status(a)
            != LanguageModelKnownError::of_status(b),
{
}

/// The message of a completion error is a text of its own for each kind of error, with the detail
/// behind it where the error carries one. Nothing else about the error changes the message.
pub proof fn lemma_completion_messages(error: LanguageModelCompletionError, detail: Seq<char>)
    ensures
        error is RateLimitExceeded ==> error.message(detail)
            == "rate limit exceeded, retry after "@ + detail,
        error is BadInputJson ==> error.message(detail) == "received bad input JSON"@,
        error is Overloaded ==> error.message(detail)
            == "language model provider's API is overloaded"@,
        error is Other ==> error.message(detail) == detail,
        error is BadRequestFormat ==> error.message(detail)
            == "invalid request format to language model provider's API"@,
        error is AuthenticationError ==> error.message(detail)
            == "authentication error with language model provider's API"@,
        error is PermissionError ==> error.message(detail)
            == "permission error with language model provider's API"@,
        error is ApiEndpointNotFound ==> error.message(detail)
            == "language model provider API endpoint not found"@,
        error is PromptTooLarge ==> error.message(detail)
            == "prompt too large for context window"@,
        error is ApiInternalServerError ==> error.message(detail)
            == "internal server error in language model provider's API"@,
        error is ApiReadResponseError ==> error.message(detail)
            == "I/O error reading response from language model provider's API: "@ + detail,
        error is HttpResponseError ==> error.message(detail)
            == "HTTP response error from language model provider's API: status "@ + detail,
        error is SerializeRequest ==> error.message(detail)
            == "error serializing request to language model provider API: "@ + detail,
        error is BuildRequestBody ==> error.message(detail)
            == "error building request body to language model provider API: "@ + detail,
        error is HttpSend ==> error.message(detail)
            == "error sending HTTP request to language model provider API: "@ + detail,
        error is DeserializeResponse ==> error.message(detail)
            == "error deserializing language model provider API response: "@ + detail,
        error is UnknownResponseFormat ==> error.message(detail)
            == "unexpected language model provider API response format: "@ + detail,
{
}

/// The message of a known error is a text of its own for each kind of error, with the detail in it
/// where the error carries one that is shown. Nothing else about the error changes the message.
pub proof fn lemma_known_messages(error: LanguageModelKnownError, detail: Seq<char>)
    ensures
        error is ContextWindowLimitExceeded ==> error.message(detail)
            == "Context window limit exceeded ("@ + detail + ")"@,
        error is Overloaded ==> error.message(detail)
            == "Language model provider's API is currently overloaded"@,
        error is ApiInternalServerError ==> error.message(detail)
            == "Language model provider's API encountered an internal server error"@,
        error is ReadResponseError ==> error.message(detail)
            == "I/O error while reading response from language model provider's API: "@ + detail,
        error is DeserializeResponse ==> error.message(detail)
            == "Error deserializing response from language model provider's API: "@ + detail,
        error is UnknownResponseFormat ==> error.message(detail)
            == "Language model provider's API returned a response in an unknown format"@,
        error is RateLimitExceeded ==> error.message(detail)
            == "Rate limit exceeded for language model provider's API; retry in "@ + detail,
{
}

/// A message with a detail ends with it, whatever the detail is: different details give different
/// messages.
pub proof fn lemma_messages_show_their_detail(
    error: LanguageModelCompletionError,
    a: Seq<char>,
    b: Seq<char>,
)
    requires
        match error {
            LanguageModelCompletionError::RateLimitExceeded { .. } => true,
            LanguageModelCompletionError::Other(_) => true,
            LanguageModelCompletionError::ApiReadResponseError(_) => true,
            LanguageModelCompletionError::HttpResponseError { .. } => true,
            LanguageModelCompletionError::SerializeRequest(_) => true,
            LanguageModelCompletionError::BuildRequestBody(_) => true,
            LanguageModelCompletionError::HttpSend(_) => true,
            LanguageModelCompletionError::DeserializeResponse(_) => true,
            LanguageModelCompletionError::UnknownResponseFormat(_) => true,
            _ => false,
        },
        error.message(a) == error.message(b),
    ensures
        a == b,
{
    let start = error.message(Seq::empty());
    assert(error.message(a) =~= start + a);
    assert(error.message(b) =~= start + b);
    assert(a =~= (start + a).skip(start.len() as int));
    assert(b =~= (start + b).skip(start.len() as int));
}

/// What the message of a completion error shows is the text of exactly what the error carries.
pub proof fn lemma_completion_details(error: LanguageModelCompletionError, detail: Seq<char>)
    ensures
        error matches LanguageModelCompletionError::RateLimitExceeded { retry_after } ==> (
        error.details(detail) <==> detail == crate::outside::duration_debug_text(retry_after)),
        error matches LanguageModelCompletionError::HttpResponseError { status, body } ==> (
        error.details(detail) <==> detail == crate::text::decimal_text(status as nat) + " - "@
            + crate::outside::str_debug_text(body@)),
        error matches LanguageModelCompletionError::UnknownResponseFormat(format) ==> (
        error.details(detail) <==> detail == format@),
        error matches LanguageModelCompletionError::ApiReadResponseError(carried) ==> (
        error.details(detail) <==> crate::outside::io_error_debugs_as(carried, detail)),
        error matches LanguageModelCompletionError::Other(carried) ==> (error.details(detail)
            <==> exists|shown: String|
            #[trigger] vstd::string::to_string_from_display_ensures(&carried, shown) && shown@
                == detail),
        error matches LanguageModelCompletionError::SerializeRequest(carried) ==> (error.details(detail)
            <==> exists|shown: String|
            #[trigger] vstd::string::to_string_from_display_ensures(&carried, shown) && shown@
                == detail),
        error matches LanguageModelCompletionError::BuildRequestBody(carried) ==> (error.details(detail)
            <==> exists|shown: String|
            #[trigger] vstd::string::to_string_from_display_ensures(&carried, shown) && shown@
                == detail),
        error matches LanguageModelCompletionError::HttpSend(carried) ==> (error.details(detail)
            <==> exists|shown: String|
            #[trigger] vstd::string::to_string_from_display_ensures(&carried, shown) && shown@
                == detail),
        error matches LanguageModelCompletionError::DeserializeResponse(carried) ==> (error.details(detail)
            <==> exists|shown: String|
            #[trigger] vstd::string::to_string_from_display_ensures(&carried, shown) && shown@
                == detail),
{
}

/// What the message of a known error shows is the text of exactly what the error carries.
pub proof fn lemma_known_details(error: LanguageModelKnownError, detail: Seq<char>)
    ensures
        error matches LanguageModelKnownError::ContextWindowLimitExceeded { tokens } ==> (
        error.details(detail) <==> detail == crate::text::decimal_text(tokens as nat)),
        error matches LanguageModelKnownError::RateLimitExceeded { retry_after } ==> (
        error.details(detail) <==> detail == crate::outside::duration_debug_text(retry_after)),
        error matches LanguageModelKnownError::ReadResponseError(carried) ==> (error.details(
            detail,
        ) <==> crate::outside::io_error_debugs_as(carried, detail)),
        error matches LanguageModelKnownError::DeserializeResponse(carried) ==> (error.details(
            detail,
        ) <==> crate::outside::json_error_debugs_as(carried, detail)),
{
}

/// What an error in authentication says: that there are no credentials, or what the error that it
/// carries displays.
pub proof fn lemma_authenticate_messages(error: AuthenticateError, message: Seq<char>)
    ensures
        error is CredentialsNotFound ==> (error.says(message) <==> message
            == "credentials not found"@),
        error matches AuthenticateError::Other(carried) ==> (error.says(message)
            <==> exists|shown: String|
            #[trigger] vstd::string::to_string_from_display_ensures(&carried, shown) && shown@
                == message),
{
}

} // verus!
