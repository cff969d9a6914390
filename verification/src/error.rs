//! The errors of a request, and what the service's error codes are mapped to.

use vstd::prelude::*;
use vstd::string::*;
use crate::text::same_text;

verus! {

/// Everything that can end a request without a list of articles.
#[derive(Debug, Clone, PartialEq, Eq)]
#[non_exhaustive]
pub enum NewsApiError {
    /// The blocking transport could not complete the exchange.
    RequestFailed,
    /// The body of the reply could not be read.
    FailedResponseToString,
    /// The body is not JSON, or not an envelope.
    ArticleParseFailed,
    /// The base URL cannot carry the request.
    UrlParsingFailed,
    /// The service answered, and reported a failure of its own.
    BadRequest(&'static str),
    /// The suspending transport could not complete the exchange.
    AsyncRequestFailed,
}

/// The one error code of the service that has a message of its own.
pub open spec fn disabled_key_code() -> Seq<char> {
    "apiKeyDisabled"@
}

/// The message for every code but [`disabled_key_code`], and for none.
pub open spec fn unknown_error_text() -> Seq<char> {
    "Unknown error"@
}

/// The message for [`disabled_key_code`].
pub open spec fn disabled_key_text() -> Seq<char> {
    "Your API key has been disabled"@
}

/// The message that the service's error code stands for.
pub open spec fn response_error_text(code: Option<Seq<char>>) -> Seq<char> {
    if code == Some(disabled_key_code()) {
        disabled_key_text()
    } else {
        unknown_error_text()
    }
}

impl NewsApiError {
    /// The text that describes this error to a reader.
    pub open spec fn message_text(self) -> Seq<char> {
        match self {
            NewsApiError::RequestFailed => "Failed fetching articles"@,
            NewsApiError::FailedResponseToString => "Failed converting response to string"@,
            NewsApiError::ArticleParseFailed => "Article Parsing Failed"@,
            NewsApiError::UrlParsingFailed => "Url Parsing Failed"@,
            NewsApiError::BadRequest(reason) => "Request failed: "@ + reason@,
            NewsApiError::AsyncRequestFailed => "Async Request Failed"@,
        }
    }

    /// Whether this is a failure that the service itself reported, with the
    /// given reason.
    pub open spec fn is_bad_request(self, reason: Seq<char>) -> bool {
        self matches NewsApiError::BadRequest(text) && text@ == reason
    }

    /// Renders the error as text.
    pub fn message(&self) -> (text: String)
        ensures
            text@ == self.message_text(),
    {
        match self {
            NewsApiError::RequestFailed => String::from_str("Failed fetching articles"),
            NewsApiError::FailedResponseToString => String::from_str(
                "Failed converting response to string",
            ),
            NewsApiError::ArticleParseFailed => String::from_str("Article Parsing Failed"),
            NewsApiError::UrlParsingFailed => String::from_str("Url Parsing Failed"),
            NewsApiError::BadRequest(reason) => String::from_str("Request failed: ").concat(reason),
            NewsApiError::AsyncRequestFailed => String::from_str("Async Request Failed"),
        }
    }
}

/// Maps the error code of a reply to an error. Only
/// [`disabled_key_code`] has a message of its own; any other code, and a
/// missing one, is reported as unknown.
pub fn map_response_err(code: Option<String>) -> (err: NewsApiError)
    ensures
        err.is_bad_request(
            response_error_text(
                match code {
                    Some(text) => Some(text@),
                    None => None,
                },
            ),
        ),
{
    match code {
        Some(text) => {
            if same_text(text.as_str(), "apiKeyDisabled") {
                NewsApiError::BadRequest("Your API key has been disabled")
            } else {
                NewsApiError::BadRequest("Unknown error")
            }
        },
        None => NewsApiError::BadRequest("Unknown error"),
    }
}

} // verus!
