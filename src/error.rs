use crate::urls::opt_view;
use vstd::prelude::*;

verus! {

#[verifier::external_type_specification]
#[verifier::external_body]
pub struct ExUrlParseError(url::ParseError);

#[verifier::external_type_specification]
#[verifier::external_body]
pub struct ExJsonError(serde_json::Error);

#[verifier::external_type_specification]
#[verifier::external_body]
pub struct ExUreqError(ureq::Error);

#[verifier::external_type_specification]
#[verifier::external_body]
pub struct ExIoError(std::io::Error);

#[verifier::external_type_specification]
#[verifier::external_body]
pub struct ExReqwestError(reqwest::Error);

/// Every way in which fetching the headlines can fail.
#[derive(Debug)]
pub enum NewsApiError {
    /// The blocking HTTP call failed.
    RequestFailed(ureq::Error),
    /// The body of the response could not be read as text.
    FailedResponseToString(std::io::Error),
    /// The body is not an envelope of the expected shape.
    ArticleParseFailed(serde_json::Error),
    /// The request URL could not be built.
    UrlParsing(url::ParseError),
    /// The API answered with a status other than `ok`.
    BadRequest(&'static str),
    /// The non-blocking HTTP call failed.
    AsyncRequestFailed(reqwest::Error),
}

/// The reason given for a disabled API key.
pub open spec fn key_disabled_reason() -> Seq<char> {
    "Your API key has been disabled."@
}

/// The reason given for any other failure status.
pub open spec fn unknown_reason() -> Seq<char> {
    "Unknown error"@
}

/// Whether a failure code says that the API key was disabled.
pub open spec fn is_key_disabled_code(code: Option<Seq<char>>) -> bool {
    match code {
        Some(c) => c == "apiKeyDisabled"@,
        None => false,
    }
}

/// The reason reported for a failure code: a known code has its own reason,
/// any other code, or none, the generic one.
pub open spec fn reason_for_code(code: Option<Seq<char>>) -> Seq<char> {
    if is_key_disabled_code(code) {
        key_disabled_reason()
    } else {
        unknown_reason()
    }
}

/// What the message of an error reads.
pub open spec fn error_message(e: NewsApiError) -> Seq<char> {
    match e {
        NewsApiError::RequestFailed(_) => "Failed fetching articles"@,
        NewsApiError::FailedResponseToString(_) => "Failed converting response to string"@,
        NewsApiError::ArticleParseFailed(_) => "Article parsing failed"@,
        NewsApiError::UrlParsing(_) => "URL parsing failed"@,
        NewsApiError::BadRequest(reason) => "Request failed: "@ + reason@ + "."@,
        NewsApiError::AsyncRequestFailed(_) => "Async request failed"@,
    }
}

impl NewsApiError {
    /// The human-readable message of this error.
    pub fn message(&self) -> (r: String)
        ensures
            r@ == error_message(*self),
    {
        match self {
            NewsApiError::RequestFailed(_) => String::from_str("Failed fetching articles"),
            NewsApiError::FailedResponseToString(_) => String::from_str(
                "Failed converting response to string",
            ),
            NewsApiError::ArticleParseFailed(_) => String::from_str("Article parsing failed"),
            NewsApiError::UrlParsing(_) => String::from_str("URL parsing failed"),
            NewsApiError::BadRequest(reason) => {
                let head = String::from_str("Request failed: ");
                head.concat(reason).concat(".")
            },
            NewsApiError::AsyncRequestFailed(_) => String::from_str("Async request failed"),
        }
    }
}

/// Maps the `code` of a failed envelope to the error that reports it.
pub fn map_response_err(code: Option<String>) -> (r: NewsApiError)
    ensures
        r is BadRequest,
        r->BadRequest_0@ == reason_for_code(opt_view(code)),
{
    let disabled = String::from_str("apiKeyDisabled");
    match code {
        Some(c) => {
            if c == disabled {
                NewsApiError::BadRequest("Your API key has been disabled.")
            } else {
                NewsApiError::BadRequest("Unknown error")
            }
        },
        None => NewsApiError::BadRequest("Unknown error"),
    }
}

} // verus!
