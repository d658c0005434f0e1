use crate::util::{decimal, decimal_string};
use vstd::prelude::*;
use vstd::string::*;

verus! {

/// Every failure the library reports.
#[derive(Debug, Clone)]
pub enum AppError {
    /// The HTTP call itself failed (connection, TLS, DNS); carries the client's message.
    ApiCallFailed(String),
    /// The server answered with a status outside 200..=299.
    ApiCallBadStatus(u16),
    /// Reading or writing local data failed; carries the message.
    IOError(String),
    /// The response body did not match the expected schema.
    DeserializationError,
    /// A release name resolved to zero or to several releases.
    MatchedMultipleReleases,
    /// Creating a release did not yield a release.
    CouldNotCreateRelease,
    /// The named transition was not found exactly once.
    UnknownTransition,
    /// The search for issues to release came back empty.
    NoIssuesFound,
}

/// The text that describes an error.
pub open spec fn message_spec(e: AppError) -> Seq<char> {
    match e {
        AppError::ApiCallFailed(m) => "failed calling jira: "@ + m@,
        AppError::ApiCallBadStatus(code) => "failed calling jira status code "@ + decimal(code as int),
        AppError::IOError(m) => "IO error: "@ + m@,
        AppError::DeserializationError => "failed deserializing response"@,
        AppError::MatchedMultipleReleases => "query was meant to match exactly one release but found multiple"@,
        AppError::CouldNotCreateRelease => "could not create the requested release"@,
        AppError::UnknownTransition => "the specified issue transition is unknown"@,
        AppError::NoIssuesFound => "no issues were found to release"@,
    }
}

impl AppError {
    /// Describes the error in words.
    pub fn message(&self) -> (r: String)
        ensures
            r@ == message_spec(*self),
    {
        match self {
            AppError::ApiCallFailed(m) => {
                let mut s = String::from_str("failed calling jira: ");
                s.append(m.as_str());
                s
            },
            AppError::ApiCallBadStatus(code) => {
                let mut s = String::from_str("failed calling jira status code ");
                let digits = decimal_string(*code as i128);
                s.append(digits.as_str());
                s
            },
            AppError::IOError(m) => {
                let mut s = String::from_str("IO error: ");
                s.append(m.as_str());
                s
            },
            AppError::DeserializationError => String::from_str("failed deserializing response"),
            AppError::MatchedMultipleReleases => String::from_str(
                "query was meant to match exactly one release but found multiple",
            ),
            AppError::CouldNotCreateRelease => String::from_str("could not create the requested release"),
            AppError::UnknownTransition => String::from_str("the specified issue transition is unknown"),
            AppError::NoIssuesFound => String::from_str("no issues were found to release"),
        }
    }
}

} // verus!
