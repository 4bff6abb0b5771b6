use vstd::prelude::*;

use crate::errors::{RunnerStreamInitialisationError, UnexpectedError};
use crate::net::WebUrl;

verus! {

/// Declares `eventsource_client::Error`, the stream client's error type.
#[verifier::external_type_specification]
#[verifier::external_body]
pub struct ExEventSourceError(eventsource_client::Error);

/// Declares `serde_json::Error`, the JSON encoder's and decoder's error type.
#[verifier::external_type_specification]
#[verifier::external_body]
pub struct ExJsonError(serde_json::Error);

/// Advice for failures that should not happen
pub const UNEXPECTED_ISSUE_ADVICE: &'static str =
    "Unexpected error.  Please rerun in debug mode and provide log details when raising an issue.";

/// An unexpected stream initialisation error with the given advice, context and cause.
fn unexpected_initialisation_error(advice: &str, context: &str, cause: String) -> (res:
    RunnerStreamInitialisationError)
    ensures
        res matches RunnerStreamInitialisationError::Unexpected(e) && e.advice@ == advice@
            && e.context@ == context@ && e.cause == cause,
{
    RunnerStreamInitialisationError::Unexpected(
        UnexpectedError {
            advice: String::from_str(advice),
            context: String::from_str(context),
            cause,
        },
    )
}

/// Maps an error in setting the request headers.
///
/// The cause is the error's display text.
pub fn map_header_parse_error(err: eventsource_client::Error) -> (res:
    RunnerStreamInitialisationError)
    ensures
        res matches RunnerStreamInitialisationError::Unexpected(e) && e.advice@
            == UNEXPECTED_ISSUE_ADVICE@ && e.context@ == "parsing runner request headers"@
            && vstd::string::to_string_from_display_ensures::<eventsource_client::Error>(&err, e.cause),
{
    unexpected_initialisation_error(
        UNEXPECTED_ISSUE_ADVICE,
        "parsing runner request headers",
        err.to_string(),
    )
}

/// Maps an error in building the HTTPS transport.
///
/// The cause is the error's display text.
pub fn map_build_transport_error(err: std::io::Error) -> (res: RunnerStreamInitialisationError)
    ensures
        res matches RunnerStreamInitialisationError::Unexpected(e) && e.advice@
            == UNEXPECTED_ISSUE_ADVICE@ && e.context@ == "initialising HTTPS transport client"@
            && vstd::string::to_string_from_display_ensures::<std::io::Error>(&err, e.cause),
{
    unexpected_initialisation_error(
        UNEXPECTED_ISSUE_ADVICE,
        "initialising HTTPS transport client",
        err.to_string(),
    )
}

/// Maps an error in encoding the request body.
///
/// The cause is the error's display text.
pub fn map_json_parse_error(err: serde_json::Error) -> (res: RunnerStreamInitialisationError)
    ensures
        res matches RunnerStreamInitialisationError::Unexpected(e) && e.advice@
            == "Unexpected error.  Please contact support."@ && e.context@
            == "serialising runner request body"@
            && vstd::string::to_string_from_display_ensures::<serde_json::Error>(&err, e.cause),
{
    unexpected_initialisation_error(
        "Unexpected error.  Please contact support.",
        "serialising runner request body",
        err.to_string(),
    )
}

/// Client providing Server-Sent Event connections, for connecting to LLM runners.
pub struct SseClient {
    /// Timeout, in seconds, for awaiting an event, most valuable for longer prompts, for which
    /// there may be a delay before the first chunk of the response stream.
    pub read_timeout_secs: u64,
    /// Url for connecting to runner API
    pub url: WebUrl,
}

} // verus!
