//! The errors that the tool reports.

use crate::text::{decimal, u64_to_text};
use vstd::prelude::*;
use vstd::string::StringExecFns;

verus! {

/// What can go wrong in the tool.
#[derive(Debug, Clone, PartialEq, Eq)]
pub enum CliError {
    /// No usable credential is stored.
    NotAuthenticated,
    /// A request to the service failed.
    ApiError(String),
    /// The service answered with a status other than success.
    ApiResponseError { status: u16, message: String },
    /// The settings are wrong.
    ConfigError(String),
    /// The service could not be reached, or its answer could not be read.
    NetworkError(String),
    /// The secure storage could not be opened, read or written.
    KeyringError(String),
    /// A stored or received value could not be encoded or decoded.
    SerializationError(String),
    /// The settings file could not be read or written.
    ConfyError(String),
    /// The user gave a value that is not accepted.
    InvalidInput(String),
    /// The login was not completed within the allowed number of polls.
    AuthTimeout,
    /// The service reported that the login session has expired.
    SessionExpired,
    /// The service reported a completed login without the token or the
    /// identity that make up a credential.
    MalformedSuccess,
    /// A poll for the login's state failed; the text says how.
    PollFailed(String),
    /// The user cancelled the operation.
    Cancelled,
    /// Any other failure.
    Other(String),
}

/// A [`CliError`] with its texts as sequences of characters.
pub enum CliErrorView {
    NotAuthenticated,
    ApiError(Seq<char>),
    ApiResponseError { status: u16, message: Seq<char> },
    ConfigError(Seq<char>),
    NetworkError(Seq<char>),
    KeyringError(Seq<char>),
    SerializationError(Seq<char>),
    ConfyError(Seq<char>),
    InvalidInput(Seq<char>),
    AuthTimeout,
    SessionExpired,
    MalformedSuccess,
    PollFailed(Seq<char>),
    Cancelled,
    Other(Seq<char>),
}

impl View for CliError {
    type V = CliErrorView;

    open spec fn view(&self) -> CliErrorView {
        match self {
            CliError::NotAuthenticated => CliErrorView::NotAuthenticated,
            CliError::ApiError(m) => CliErrorView::ApiError(m@),
            CliError::ApiResponseError { status, message } => CliErrorView::ApiResponseError {
                status: *status,
                message: message@,
            },
            CliError::ConfigError(m) => CliErrorView::ConfigError(m@),
            CliError::NetworkError(m) => CliErrorView::NetworkError(m@),
            CliError::KeyringError(m) => CliErrorView::KeyringError(m@),
            CliError::SerializationError(m) => CliErrorView::SerializationError(m@),
            CliError::ConfyError(m) => CliErrorView::ConfyError(m@),
            CliError::InvalidInput(m) => CliErrorView::InvalidInput(m@),
            CliError::AuthTimeout => CliErrorView::AuthTimeout,
            CliError::SessionExpired => CliErrorView::SessionExpired,
            CliError::MalformedSuccess => CliErrorView::MalformedSuccess,
            CliError::PollFailed(m) => CliErrorView::PollFailed(m@),
            CliError::Cancelled => CliErrorView::Cancelled,
            CliError::Other(m) => CliErrorView::Other(m@),
        }
    }
}

/// The one line that tells the user of an error.
pub open spec fn message_text(e: CliErrorView) -> Seq<char> {
    match e {
        CliErrorView::NotAuthenticated => "Authentication required. Run 'sdt auth login' first."@,
        CliErrorView::ApiError(m) => "API request failed: "@ + m,
        CliErrorView::ApiResponseError { status, message } => "API returned error "@ + decimal(
            status as nat,
        ) + ": "@ + message,
        CliErrorView::ConfigError(m) => "Configuration error: "@ + m,
        CliErrorView::NetworkError(m) => "Network error: "@ + m,
        CliErrorView::KeyringError(m) => "Credential storage error: "@ + m,
        CliErrorView::SerializationError(m) => "Serialization error: "@ + m,
        CliErrorView::ConfyError(m) => "Configuration file error: "@ + m,
        CliErrorView::InvalidInput(m) => "Invalid input: "@ + m,
        CliErrorView::AuthTimeout => "Authentication timeout. Please try again."@,
        CliErrorView::SessionExpired =>
            "Authentication session expired. Run 'sdt auth login' again."@,
        CliErrorView::MalformedSuccess => "Authentication verified but no token returned"@,
        CliErrorView::PollFailed(m) => "Authentication polling failed: "@ + m,
        CliErrorView::Cancelled => "Operation cancelled by user"@,
        CliErrorView::Other(m) => m,
    }
}

/// `head` followed by `tail`.
pub fn joined(head: &str, tail: &str) -> (r: String)
    ensures
        r@ == head@ + tail@,
{
    let mut r = head.to_string();
    r.append(tail);
    r
}

impl CliError {
    /// The one line that tells the user of this error.
    pub fn message(&self) -> (r: String)
        ensures
            r@ == message_text(self@),
    {
        match self {
            CliError::NotAuthenticated => {
                "Authentication required. Run 'sdt auth login' first.".to_string()
            },
            CliError::ApiError(m) => joined("API request failed: ", m.as_str()),
            CliError::ApiResponseError { status, message } => {
                let number = u64_to_text(*status as u64);
                let mut r = joined("API returned error ", number.as_str());
                r.append(": ");
                r.append(message.as_str());
                r
            },
            CliError::ConfigError(m) => joined("Configuration error: ", m.as_str()),
            CliError::NetworkError(m) => joined("Network error: ", m.as_str()),
            CliError::KeyringError(m) => joined("Credential storage error: ", m.as_str()),
            CliError::SerializationError(m) => joined("Serialization error: ", m.as_str()),
            CliError::ConfyError(m) => joined("Configuration file error: ", m.as_str()),
            CliError::InvalidInput(m) => joined("Invalid input: ", m.as_str()),
            CliError::AuthTimeout => "Authentication timeout. Please try again.".to_string(),
            CliError::SessionExpired => {
                "Authentication session expired. Run 'sdt auth login' again.".to_string()
            },
            CliError::MalformedSuccess => {
                "Authentication verified but no token returned".to_string()
            },
            CliError::PollFailed(m) => joined("Authentication polling failed: ", m.as_str()),
            CliError::Cancelled => "Operation cancelled by user".to_string(),
            CliError::Other(m) => m.clone(),
        }
    }
}

} // verus!
