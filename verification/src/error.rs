//! Error type of the client and the text each error reads as.

use vstd::prelude::*;

use crate::text::{decimal, push_decimal};

verus! {

/// Transport-level error of the HTTP client (`reqwest::Error`), carried as is.
#[verifier::external_type_specification]
#[verifier::external_body]
pub struct ExReqwestError(reqwest::Error);

/// JSON decoding error (`serde_json::Error`), carried as is.
#[verifier::external_type_specification]
#[verifier::external_body]
pub struct ExJsonError(serde_json::Error);

/// Errors returned by the client.
#[derive(Debug)]
#[non_exhaustive]
pub enum UniRateError {
    /// HTTP 401: missing or invalid API key.
    Authentication,
    /// HTTP 429: rate limit exceeded.
    RateLimit,
    /// HTTP 404: currency not found or no data available for the requested parameters.
    InvalidCurrency,
    /// HTTP 400: invalid request parameters (commonly a bad date format).
    InvalidDate,
    /// Any other non-2xx HTTP response: `403` for Pro-gated endpoints on the
    /// free tier, `503` for service unavailable, etc.
    Api {
        /// HTTP status code.
        status: u16,
        /// Raw response body.
        body: String,
    },
    /// Transport-level / network error of the HTTP client.
    Http(reqwest::Error),
    /// JSON decoding failure.
    Json(serde_json::Error),
}

/// The display text of a transport error (`<reqwest::Error as Display>::fmt`).
/// The text is produced by the HTTP client and nothing is claimed of it.
#[verifier::external_body]
fn transport_error_text(e: &reqwest::Error) -> String {
    format!("{}", e)
}

/// The display text of a JSON error (`<serde_json::Error as Display>::fmt`).
/// The text is produced by the JSON decoder and nothing is claimed of it.
#[verifier::external_body]
fn json_error_text(e: &serde_json::Error) -> String {
    format!("{}", e)
}

/// Fixed part of the message of each error; for `Http` and `Json` it is the
/// prefix that the underlying error's own text follows.
pub open spec fn message_head(e: &UniRateError) -> Seq<char> {
    match e {
        UniRateError::Authentication => "Authentication failed: missing or invalid API key"@,
        UniRateError::RateLimit => "Rate limit exceeded"@,
        UniRateError::InvalidCurrency => "Invalid currency: currency not found or no data available"@,
        UniRateError::InvalidDate => "Invalid date or request parameters"@,
        UniRateError::Api { status, body } => "API error (status "@ + decimal(*status as nat) + "): "@ + body@,
        UniRateError::Http(_) => "HTTP transport error: "@,
        UniRateError::Json(_) => "JSON decoding error: "@,
    }
}

impl UniRateError {
    /// The human-readable message of this error.
    pub fn to_string(&self) -> (r: String)
        ensures
            match self {
                UniRateError::Http(_) | UniRateError::Json(_) =>
                    r@.len() >= message_head(self).len()
                    && r@.take(message_head(self).len() as int) == message_head(self),
                _ => r@ == message_head(self),
            },
    {
        match self {
            UniRateError::Authentication => String::from_str(
                "Authentication failed: missing or invalid API key",
            ),
            UniRateError::RateLimit => String::from_str("Rate limit exceeded"),
            UniRateError::InvalidCurrency => String::from_str(
                "Invalid currency: currency not found or no data available",
            ),
            UniRateError::InvalidDate => String::from_str("Invalid date or request parameters"),
            UniRateError::Api { status, body } => {
                let mut out = String::from_str("API error (status ");
                push_decimal(&mut out, *status);
                out.append("): ");
                out.append(body.as_str());
                out
            },
            UniRateError::Http(e) => {
                let mut out = String::from_str("HTTP transport error: ");
                let tail = transport_error_text(e);
                let ghost head = out@;
                out.append(tail.as_str());
                assert(out@.take(head.len() as int) =~= head);
                out
            },
            UniRateError::Json(e) => {
                let mut out = String::from_str("JSON decoding error: ");
                let tail = json_error_text(e);
                let ghost head = out@;
                out.append(tail.as_str());
                assert(out@.take(head.len() as int) =~= head);
                out
            },
        }
    }
}

impl From<reqwest::Error> for UniRateError {
    fn from(e: reqwest::Error) -> (r: UniRateError) {
        UniRateError::Http(e)
    }
}

impl vstd::std_specs::convert::FromSpecImpl<reqwest::Error> for UniRateError {
    open spec fn obeys_from_spec() -> bool {
        true
    }

    open spec fn from_spec(e: reqwest::Error) -> UniRateError {
        UniRateError::Http(e)
    }
}

impl From<serde_json::Error> for UniRateError {
    fn from(e: serde_json::Error) -> (r: UniRateError) {
        UniRateError::Json(e)
    }
}

impl vstd::std_specs::convert::FromSpecImpl<serde_json::Error> for UniRateError {
    open spec fn obeys_from_spec() -> bool {
        true
    }

    open spec fn from_spec(e: serde_json::Error) -> UniRateError {
        UniRateError::Json(e)
    }
}

} // verus!
