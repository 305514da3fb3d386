//! What the library relies on from other crates and from std, without proof.

use std::sync::Arc;
use std::time::Duration;

use vstd::prelude::*;

verus! {

/// `anyhow::Error`, carried as it is.
#[verifier::external_type_specification]
#[verifier::external_body]
pub struct ExAnyhowError(anyhow::Error);

/// `std::io::Error`, carried as it is.
#[verifier::external_type_specification]
#[verifier::external_body]
pub struct ExIoError(std::io::Error);

/// `serde_json::Error`, carried as it is.
#[verifier::external_type_specification]
#[verifier::external_body]
pub struct ExJsonError(serde_json::Error);

/// `serde_json::Value`, carried as it is.
#[verifier::external_type_specification]
#[verifier::external_body]
pub struct ExJsonValue(serde_json::Value);

/// `http::Error`, carried as it is.
#[verifier::external_type_specification]
#[verifier::external_body]
pub struct ExHttpError(http::Error);

/// `zed_llm_client::CompletionRequestStatus`, carried as it is.
#[verifier::external_type_specification]
#[verifier::external_body]
pub struct ExCompletionRequestStatus(zed_llm_client::CompletionRequestStatus);

/// `serde_json::Value::clone` copies the whole JSON tree: the clone is the same value.
pub assume_specification[ <serde_json::Value as Clone>::clone ](
    value: &serde_json::Value,
) -> (copy: serde_json::Value)
    ensures
        copy == *value,
;

/// `zed_llm_client::CompletionRequestStatus::clone` copies the variant and each of its fields: the
/// clone is the same value.
pub assume_specification[ <zed_llm_client::CompletionRequestStatus as Clone>::clone ](
    status: &zed_llm_client::CompletionRequestStatus,
) -> (copy: zed_llm_client::CompletionRequestStatus)
    ensures
        copy == *status,
;

/// `Arc::<str>::from` copies a string slice: the text stays the same.
pub assume_specification<'a>[ <Arc<str> as From<&'a str>>::from ](text: &str) -> (shared: Arc<str>)
    ensures
        shared@ == text@,
;

/// `Arc::<str>::from` copies a string: the text stays the same.
pub assume_specification[ <Arc<str> as From<String>>::from ](text: String) -> (shared: Arc<str>)
    ensures
        shared@ == text@,
;

/// Every type converts into itself, which returns the argument unchanged.
pub assume_specification<V>[ <V as std::convert::From<V>>::from ](value: V) -> (same: V)
    ensures
        same == value,
;

/// What `Duration::from_secs` returns for a number of seconds.
pub uninterp spec fn duration_from_secs(secs: u64) -> Duration;

/// `Duration::from_secs` makes the duration of that many whole seconds: what it returns depends on
/// their number alone.
pub assume_specification[ Duration::from_secs ](secs: u64) -> (duration: Duration)
    ensures
        duration == duration_from_secs(secs),
;

/// The text that the `{:?}` format gives of a duration, such as `4s`.
pub uninterp spec fn duration_debug_text(duration: Duration) -> Seq<char>;

/// Formats with `Duration`'s `Debug`: the text depends on the length of the duration alone.
#[verifier::external_body]
pub(crate) fn debug_duration(duration: &Duration) -> (text: String)
    ensures
        text@ == duration_debug_text(*duration),
{
    format!("{:?}", duration)
}

/// The text that the `{:?}` format gives of a string: in double quotes, with characters escaped.
pub uninterp spec fn str_debug_text(text: Seq<char>) -> Seq<char>;

/// Formats with `str`'s `Debug`: the result depends on the characters of the string alone.
#[verifier::external_body]
pub(crate) fn debug_str(text: &str) -> (quoted: String)
    ensures
        quoted@ == str_debug_text(text@),
{
    format!("{:?}", text)
}

/// `text` is one that the `{:?}` format gives of `error`. There may be several: an error of the
/// operating system is shown in the system's words.
pub uninterp spec fn io_error_debugs_as(error: std::io::Error, text: Seq<char>) -> bool;

/// Formats with `std::io::Error`'s `Debug`: the text is one that this error is shown as. It is left
/// unsaid which one, since the operating system has a say in it.
#[verifier::external_body]
pub(crate) fn debug_io_error(error: &std::io::Error) -> (text: String)
    ensures
        io_error_debugs_as(*error, text@),
{
    format!("{:?}", error)
}

/// The line of the JSON text at which an error was met, counted from 1, or 0 for no place.
pub uninterp spec fn json_error_line(error: serde_json::Error) -> usize;

/// `serde_json::Error::line` reads the line that the error was made with.
pub assume_specification[ serde_json::Error::line ](error: &serde_json::Error) -> (line: usize)
    ensures
        line == json_error_line(*error),
;

/// The column within the line at which an error was met.
pub uninterp spec fn json_error_column(error: serde_json::Error) -> usize;

/// `serde_json::Error::column` reads the column that the error was made with.
pub assume_specification[ serde_json::Error::column ](error: &serde_json::Error) -> (column: usize)
    ensures
        column == json_error_column(*error),
;

/// The text that the `{:?}` format gives of a JSON error with this message, met at this place of
/// the JSON text.
pub open spec fn json_error_debug_text(message: Seq<char>, line: nat, column: nat) -> Seq<char> {
    "Error("@ + str_debug_text(message) + ", line: "@ + crate::text::decimal_text(line)
        + ", column: "@ + crate::text::decimal_text(column) + ")"@
}

/// The text that a JSON error with this message, met at this place of the JSON text, displays as.
/// Line 0 stands for no place.
pub open spec fn json_error_display_text(message: Seq<char>, line: nat, column: nat) -> Seq<char> {
    if line == 0 {
        message
    } else {
        message + " at line "@ + crate::text::decimal_text(line) + " column "@
            + crate::text::decimal_text(column)
    }
}

/// `text` is what the `{:?}` format gives of `error`: it shows the line and the column of the
/// error, and the message that `error` displays together with them.
pub open spec fn json_error_debugs_as(error: serde_json::Error, text: Seq<char>) -> bool {
    let line = json_error_line(error) as nat;
    let column = json_error_column(error) as nat;
    exists|message: Seq<char>|
        text == #[trigger] json_error_debug_text(message, line, column)
            && crate::text::displays_as(error, json_error_display_text(message, line, column))
}

/// Formats with `serde_json::Error`'s `Debug`: the text shows the line and the column of the error,
/// and the message that the `Display` of the error shows too.
#[verifier::external_body]
pub(crate) fn debug_json_error(error: &serde_json::Error) -> (text: String)
    ensures
        json_error_debugs_as(*error, text@),
{
    format!("{:?}", error)
}

/// The `{:?}` text of a JSON error shows the line and the column that the error has, and the message
/// that the error displays: alone if it has no place, and with the place behind it otherwise.
pub proof fn lemma_json_error_debug_text(error: serde_json::Error, text: Seq<char>)
    requires
        json_error_debugs_as(error, text),
    ensures
        ({
            let line = crate::text::decimal_text(json_error_line(error) as nat);
            let column = crate::text::decimal_text(json_error_column(error) as nat);
            exists|message: Seq<char>|
                text == "Error("@ + #[trigger] str_debug_text(message) + ", line: "@ + line
                    + ", column: "@ + column + ")"@ && crate::text::displays_as(
                    error,
                    if json_error_line(error) == 0 {
                        message
                    } else {
                        message + " at line "@ + line + " column "@ + column
                    },
                )
        }),
{
}

} // verus!
