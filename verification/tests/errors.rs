use std::sync::Arc;
use std::time::Duration;

use language_model::{
    AnthropicError, ApiError, ApiErrorCode, AuthenticateError, LanguageModelCompletionError,
    LanguageModelKnownError, LanguageModelToolUseId,
};

fn api_error(code: Option<ApiErrorCode>) -> ApiError {
    ApiError {
        code,
        prompt_tokens: Some(220_000),
        source: anyhow::Error::msg("unheard of"),
    }
}

fn json_error() -> serde_json::Error {
    serde_json::from_str::<serde_json::Value>("[1, ").unwrap_err()
}

fn http_error() -> http::Error {
    http::Request::builder().uri("not a uri").body(()).unwrap_err()
}

fn io_error() -> std::io::Error {
    std::io::Error::new(std::io::ErrorKind::Other, "cut off")
}

#[test]
fn api_error_codes_are_told_apart() {
    let of = |code: ApiErrorCode| LanguageModelCompletionError::from(api_error(Some(code)));
    assert!(matches!(
        of(ApiErrorCode::InvalidRequestError),
        LanguageModelCompletionError::BadRequestFormat
    ));
    assert!(matches!(
        of(ApiErrorCode::AuthenticationError),
        LanguageModelCompletionError::AuthenticationError
    ));
    assert!(matches!(
        of(ApiErrorCode::PermissionError),
        LanguageModelCompletionError::PermissionError
    ));
    assert!(matches!(
        of(ApiErrorCode::NotFoundError),
        LanguageModelCompletionError::ApiEndpointNotFound
    ));
    assert!(matches!(
        of(ApiErrorCode::RequestTooLarge),
        LanguageModelCompletionError::PromptTooLarge { tokens: Some(220_000) }
    ));
    assert!(matches!(
        of(ApiErrorCode::ApiError),
        LanguageModelCompletionError::ApiInternalServerError
    ));
    assert!(matches!(
        of(ApiErrorCode::OverloadedError),
        LanguageModelCompletionError::Overloaded
    ));
}

#[test]
fn prompt_size_may_be_unknown() {
    let error = ApiError { prompt_tokens: None, ..api_error(Some(ApiErrorCode::RequestTooLarge)) };
    assert!(matches!(
        LanguageModelCompletionError::from(error),
        LanguageModelCompletionError::PromptTooLarge { tokens: None }
    ));
}

#[test]
fn api_error_without_known_code_is_passed_on() {
    match LanguageModelCompletionError::from(api_error(None)) {
        LanguageModelCompletionError::Other(error) => assert_eq!(error.to_string(), "unheard of"),
        other => panic!("{:?}", other),
    }
}

#[test]
fn rate_limits_wait_alike() {
    let api = LanguageModelCompletionError::from(api_error(Some(ApiErrorCode::RateLimitError)));
    let http = LanguageModelKnownError::from_http_response(429, "");
    match (api, http) {
        (
            LanguageModelCompletionError::RateLimitExceeded { retry_after: a },
            Some(LanguageModelKnownError::RateLimitExceeded { retry_after: b }),
        ) => {
            assert_eq!(a, Duration::from_secs(4));
            assert_eq!(a, b);
        }
        other => panic!("{:?}", other),
    }
}

#[test]
fn rate_limit_keeps_the_time_it_was_told() {
    let error = AnthropicError::RateLimit { retry_after: Duration::from_millis(1500) };
    let error = LanguageModelCompletionError::from(error);
    assert_eq!(error.to_string(), "rate limit exceeded, retry after 1.5s");
}

#[test]
fn anthropic_errors_keep_what_they_carry() {
    let of = |error: AnthropicError| LanguageModelCompletionError::from(error);
    match of(AnthropicError::SerializeRequest(json_error())) {
        LanguageModelCompletionError::SerializeRequest(error) => {
            assert_eq!(error.to_string(), json_error().to_string());
        }
        other => panic!("{:?}", other),
    }
    match of(AnthropicError::BuildRequestBody(http_error())) {
        LanguageModelCompletionError::BuildRequestBody(error) => {
            assert_eq!(error.to_string(), http_error().to_string());
        }
        other => panic!("{:?}", other),
    }
    match of(AnthropicError::HttpSend(anyhow::Error::msg("no route"))) {
        LanguageModelCompletionError::HttpSend(error) => {
            assert_eq!(error.to_string(), "no route");
        }
        other => panic!("{:?}", other),
    }
    match of(AnthropicError::DeserializeResponse(json_error())) {
        LanguageModelCompletionError::DeserializeResponse(error) => {
            assert_eq!(error.to_string(), json_error().to_string());
        }
        other => panic!("{:?}", other),
    }
    match of(AnthropicError::ReadResponse(io_error())) {
        LanguageModelCompletionError::ApiReadResponseError(error) => {
            assert_eq!(error.to_string(), "cut off");
        }
        other => panic!("{:?}", other),
    }
    match of(AnthropicError::HttpResponseError { status: 418, body: "teapot".to_string() }) {
        LanguageModelCompletionError::HttpResponseError { status, body } => {
            assert_eq!((status, body.as_str()), (418, "teapot"));
        }
        other => panic!("{:?}", other),
    }
    match of(AnthropicError::UnexpectedResponseFormat("xml".to_string())) {
        LanguageModelCompletionError::UnknownResponseFormat(format) => assert_eq!(format, "xml"),
        other => panic!("{:?}", other),
    }
    assert!(matches!(
        of(AnthropicError::ApiError(api_error(Some(ApiErrorCode::OverloadedError)))),
        LanguageModelCompletionError::Overloaded
    ));
}

#[test]
fn other_errors_become_completion_errors() {
    let error = LanguageModelCompletionError::from(anyhow::Error::msg("odd"));
    assert!(matches!(error, LanguageModelCompletionError::Other(_)));
    assert_eq!(error.to_string(), "odd");
}

#[test]
fn http_statuses_of_known_errors() {
    let of = |status: u16| LanguageModelKnownError::from_http_response(status, "body");
    assert!(matches!(of(429), Some(LanguageModelKnownError::RateLimitExceeded { .. })));
    assert!(matches!(of(500), Some(LanguageModelKnownError::ApiInternalServerError)));
    assert!(matches!(of(502), Some(LanguageModelKnownError::ApiInternalServerError)));
    assert!(matches!(of(503), Some(LanguageModelKnownError::Overloaded)));
    assert!(matches!(of(504), Some(LanguageModelKnownError::ApiInternalServerError)));
    assert!(matches!(of(599), Some(LanguageModelKnownError::ApiInternalServerError)));
}

#[test]
fn http_statuses_of_no_known_error() {
    for status in [0, 200, 301, 400, 401, 404, 428, 430, 499, 600, u16::MAX] {
        assert!(LanguageModelKnownError::from_http_response(status, "body").is_none());
    }
}

#[test]
fn completion_errors_say_what_is_wrong() {
    let cases = vec![
        (
            LanguageModelCompletionError::BadInputJson {
                id: LanguageModelToolUseId::from("toolu_01"),
                tool_name: Arc::from("grep"),
                raw_input: Arc::from("{"),
                json_parse_error: "EOF".to_string(),
            },
            "received bad input JSON",
        ),
        (
            LanguageModelCompletionError::Overloaded,
            "language model provider's API is overloaded",
        ),
        (
            LanguageModelCompletionError::BadRequestFormat,
            "invalid request format to language model provider's API",
        ),
        (
            LanguageModelCompletionError::AuthenticationError,
            "authentication error with language model provider's API",
        ),
        (
            LanguageModelCompletionError::PermissionError,
            "permission error with language model provider's API",
        ),
        (
            LanguageModelCompletionError::ApiEndpointNotFound,
            "language model provider API endpoint not found",
        ),
        (
            LanguageModelCompletionError::PromptTooLarge { tokens: Some(7) },
            "prompt too large for context window",
        ),
        (
            LanguageModelCompletionError::ApiInternalServerError,
            "internal server error in language model provider's API",
        ),
        (
            LanguageModelCompletionError::RateLimitExceeded {
                retry_after: Duration::from_secs(4),
            },
            "rate limit exceeded, retry after 4s",
        ),
        (
            LanguageModelCompletionError::HttpResponseError {
                status: 404,
                body: "no \"such\" page\n".to_string(),
            },
            "HTTP response error from language model provider's API: status 404 - \"no \\\"such\\\" page\\n\"",
        ),
        (
            LanguageModelCompletionError::UnknownResponseFormat("xml".to_string()),
            "unexpected language model provider API response format: xml",
        ),
        (
            LanguageModelCompletionError::Other(anyhow::Error::msg("odd")),
            "odd",
        ),
        (
            LanguageModelCompletionError::HttpSend(anyhow::Error::msg("no route")),
            "error sending HTTP request to language model provider API: no route",
        ),
    ];
    for (error, message) in cases {
        assert_eq!(error.to_string(), message);
    }
}

#[test]
fn completion_errors_show_the_errors_they_carry() {
    assert_eq!(
        LanguageModelCompletionError::SerializeRequest(json_error()).to_string(),
        format!("error serializing request to language model provider API: {}", json_error())
    );
    assert_eq!(
        LanguageModelCompletionError::DeserializeResponse(json_error()).to_string(),
        format!("error deserializing language model provider API response: {}", json_error())
    );
    assert_eq!(
        LanguageModelCompletionError::BuildRequestBody(http_error()).to_string(),
        format!("error building request body to language model provider API: {}", http_error())
    );
    assert_eq!(
        LanguageModelCompletionError::ApiReadResponseError(io_error()).to_string(),
        format!(
            "I/O error reading response from language model provider's API: {:?}",
            io_error()
        )
    );
}

#[test]
fn messages_can_be_written_around_a_detail() {
    assert_eq!(
        LanguageModelCompletionError::HttpSend(anyhow::Error::msg("x")).message_with("detail"),
        "error sending HTTP request to language model provider API: detail"
    );
    assert_eq!(LanguageModelCompletionError::Overloaded.message_with("detail"),
        "language model provider's API is overloaded");
    assert_eq!(
        LanguageModelKnownError::ContextWindowLimitExceeded { tokens: 1 }.message_with("many"),
        "Context window limit exceeded (many)"
    );
}

#[test]
fn known_errors_say_what_is_wrong() {
    let of = |error: LanguageModelKnownError| error.to_string();
    assert_eq!(
        of(LanguageModelKnownError::ContextWindowLimitExceeded { tokens: 0 }),
        "Context window limit exceeded (0)"
    );
    assert_eq!(
        of(LanguageModelKnownError::ContextWindowLimitExceeded { tokens: 1_203_450 }),
        "Context window limit exceeded (1203450)"
    );
    assert_eq!(
        of(LanguageModelKnownError::ContextWindowLimitExceeded { tokens: u64::MAX }),
        "Context window limit exceeded (18446744073709551615)"
    );
    assert_eq!(
        of(LanguageModelKnownError::Overloaded),
        "Language model provider's API is currently overloaded"
    );
    assert_eq!(
        of(LanguageModelKnownError::ApiInternalServerError),
        "Language model provider's API encountered an internal server error"
    );
    assert_eq!(
        of(LanguageModelKnownError::ReadResponseError(io_error())),
        format!(
            "I/O error while reading response from language model provider's API: {:?}",
            io_error()
        )
    );
    assert_eq!(
        of(LanguageModelKnownError::DeserializeResponse(json_error())),
        format!(
            "Error deserializing response from language model provider's API: {:?}",
            json_error()
        )
    );
    assert_eq!(
        of(LanguageModelKnownError::DeserializeResponse(json_error())),
        "Error deserializing response from language model provider's API: Error(\"EOF while parsing a value\", line: 1, column: 4)"
    );
    assert_eq!(
        of(LanguageModelKnownError::UnknownResponseFormat("xml".to_string())),
        "Language model provider's API returned a response in an unknown format"
    );
    assert_eq!(
        of(LanguageModelKnownError::RateLimitExceeded { retry_after: Duration::from_secs(4) }),
        "Rate limit exceeded for language model provider's API; retry in 4s"
    );
}

#[test]
fn authenticate_errors_say_what_is_wrong() {
    assert_eq!(AuthenticateError::CredentialsNotFound.to_string(), "credentials not found");
    let error = AuthenticateError::from(anyhow::Error::msg("keychain is locked"));
    assert!(matches!(error, AuthenticateError::Other(_)));
    assert_eq!(error.to_string(), "keychain is locked");
}

#[test]
fn json_errors_are_shown_with_their_place() {
    let error = json_error();
    assert_eq!((error.line(), error.column()), (1, 4));
    assert_eq!(error.to_string(), "EOF while parsing a value at line 1 column 4");
    let nowhere = <serde_json::Error as serde::de::Error>::custom("no such \"field\"");
    assert_eq!((nowhere.line(), nowhere.column()), (0, 0));
    assert_eq!(nowhere.to_string(), "no such \"field\"");
    assert_eq!(
        LanguageModelKnownError::DeserializeResponse(nowhere).to_string(),
        "Error deserializing response from language model provider's API: Error(\"no such \\\"field\\\"\", line: 0, column: 0)"
    );
}
