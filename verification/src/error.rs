//! The errors of the flow and of profile handling.

use vstd::prelude::*;
use crate::text::concat2;
use crate::trusted::parse_error_text;

verus! {

/// What can go wrong. Transport, JSON and file errors arise outside this
/// library and are carried as their rendered text.
#[derive(Debug)]
pub enum OidcError {
    Network(String),
    Json(String),
    Url(url::ParseError),
    Io(String),
    Config(String),
    Auth(String),
    Profile(String),
    Server(String),
    StateMismatch,
    InvalidRedirectUri(String),
    MissingField(String),
    InvalidTokenResponse,
    ProfileNotFound(String),
    ProfileExists(String),
    Discovery(String),
    BrowserFailed,
    AuthTimeout,
    Cancelled,
}

/// The model of an error: the same variants, each text by its characters.
pub enum ErrorModel {
    Network(Seq<char>),
    Json(Seq<char>),
    Url(url::ParseError),
    Io(Seq<char>),
    Config(Seq<char>),
    Auth(Seq<char>),
    Profile(Seq<char>),
    Server(Seq<char>),
    StateMismatch,
    InvalidRedirectUri(Seq<char>),
    MissingField(Seq<char>),
    InvalidTokenResponse,
    ProfileNotFound(Seq<char>),
    ProfileExists(Seq<char>),
    Discovery(Seq<char>),
    BrowserFailed,
    AuthTimeout,
    Cancelled,
}

impl View for OidcError {
    type V = ErrorModel;

    open spec fn view(&self) -> ErrorModel {
        match self {
            OidcError::Network(d) => ErrorModel::Network(d@),
            OidcError::Json(d) => ErrorModel::Json(d@),
            OidcError::Url(e) => ErrorModel::Url(*e),
            OidcError::Io(d) => ErrorModel::Io(d@),
            OidcError::Config(d) => ErrorModel::Config(d@),
            OidcError::Auth(d) => ErrorModel::Auth(d@),
            OidcError::Profile(d) => ErrorModel::Profile(d@),
            OidcError::Server(d) => ErrorModel::Server(d@),
            OidcError::StateMismatch => ErrorModel::StateMismatch,
            OidcError::InvalidRedirectUri(d) => ErrorModel::InvalidRedirectUri(d@),
            OidcError::MissingField(d) => ErrorModel::MissingField(d@),
            OidcError::InvalidTokenResponse => ErrorModel::InvalidTokenResponse,
            OidcError::ProfileNotFound(d) => ErrorModel::ProfileNotFound(d@),
            OidcError::ProfileExists(d) => ErrorModel::ProfileExists(d@),
            OidcError::Discovery(d) => ErrorModel::Discovery(d@),
            OidcError::BrowserFailed => ErrorModel::BrowserFailed,
            OidcError::AuthTimeout => ErrorModel::AuthTimeout,
            OidcError::Cancelled => ErrorModel::Cancelled,
        }
    }
}

impl ErrorModel {
    /// The fixed text that a variant's message starts with, or is.
    pub open spec fn prefix(self) -> Seq<char> {
        match self {
            ErrorModel::Network(_) => "Network error: "@,
            ErrorModel::Json(_) => "JSON error: "@,
            ErrorModel::Url(_) => "URL parsing error: "@,
            ErrorModel::Io(_) => "IO error: "@,
            ErrorModel::Config(_) => "Configuration error: "@,
            ErrorModel::Auth(_) => "Authentication error: "@,
            ErrorModel::Profile(_) => "Profile error: "@,
            ErrorModel::Server(_) => "Server error: "@,
            ErrorModel::StateMismatch => "State parameter mismatch"@,
            ErrorModel::InvalidRedirectUri(_) => "Invalid redirect URI: "@,
            ErrorModel::MissingField(_) => "Missing required field: "@,
            ErrorModel::InvalidTokenResponse => "Invalid token response"@,
            ErrorModel::ProfileNotFound(_) => "Profile not found: "@,
            ErrorModel::ProfileExists(_) => "Profile already exists: "@,
            ErrorModel::Discovery(_) => "Discovery failed: "@,
            ErrorModel::BrowserFailed => "Browser opening failed"@,
            ErrorModel::AuthTimeout => "Authentication error: Authentication timeout (5 minutes)"@,
            ErrorModel::Cancelled => "Operation cancelled by user"@,
        }
    }

    /// The detail that a variant carries as text, if it carries one. A URL
    /// parse error carries no text of its own.
    pub open spec fn detail(self) -> Option<Seq<char>> {
        match self {
            ErrorModel::Network(d)
            | ErrorModel::Json(d)
            | ErrorModel::Io(d)
            | ErrorModel::Config(d)
            | ErrorModel::Auth(d)
            | ErrorModel::Profile(d)
            | ErrorModel::Server(d)
            | ErrorModel::InvalidRedirectUri(d)
            | ErrorModel::MissingField(d)
            | ErrorModel::ProfileNotFound(d)
            | ErrorModel::ProfileExists(d)
            | ErrorModel::Discovery(d) => Some(d),
            _ => None,
        }
    }

    /// The message of an error that is no URL parse error: its prefix, then
    /// its detail.
    pub open spec fn message(self) -> Seq<char> {
        match self.detail() {
            Some(d) => self.prefix() + d,
            None => self.prefix(),
        }
    }
}

impl OidcError {
    /// Whether the error is the clean exit that is not reported as a failure.
    pub fn is_cancelled(&self) -> (r: bool)
        ensures
            r == (*self is Cancelled),
    {
        match self {
            OidcError::Cancelled => true,
            _ => false,
        }
    }

    /// The message shown for the error: its prefix, then its detail. For a URL
    /// parse error the detail is the parser's own text, of which only the
    /// prefix before it is stated.
    pub fn message(&self) -> (r: String)
        ensures
            !(*self is Url) ==> r@ == self@.message(),
            *self is Url ==> r@.len() >= self@.prefix().len() && r@.subrange(
                0,
                self@.prefix().len() as int,
            ) == self@.prefix(),
    {
        match self {
            OidcError::Network(d) => concat2("Network error: ", d.as_str()),
            OidcError::Json(d) => concat2("JSON error: ", d.as_str()),
            OidcError::Url(e) => {
                let text = parse_error_text(e);
                let r = concat2("URL parsing error: ", text.as_str());
                assert(r@.subrange(0, "URL parsing error: "@.len() as int)
                    =~= "URL parsing error: "@);
                r
            },
            OidcError::Io(d) => concat2("IO error: ", d.as_str()),
            OidcError::Config(d) => concat2("Configuration error: ", d.as_str()),
            OidcError::Auth(d) => concat2("Authentication error: ", d.as_str()),
            OidcError::Profile(d) => concat2("Profile error: ", d.as_str()),
            OidcError::Server(d) => concat2("Server error: ", d.as_str()),
            OidcError::StateMismatch => "State parameter mismatch".to_string(),
            OidcError::InvalidRedirectUri(d) => concat2("Invalid redirect URI: ", d.as_str()),
            OidcError::MissingField(d) => concat2("Missing required field: ", d.as_str()),
            OidcError::InvalidTokenResponse => "Invalid token response".to_string(),
            OidcError::ProfileNotFound(d) => concat2("Profile not found: ", d.as_str()),
            OidcError::ProfileExists(d) => concat2("Profile already exists: ", d.as_str()),
            OidcError::Discovery(d) => concat2("Discovery failed: ", d.as_str()),
            OidcError::BrowserFailed => "Browser opening failed".to_string(),
            OidcError::AuthTimeout => {
                "Authentication error: Authentication timeout (5 minutes)".to_string()
            },
            OidcError::Cancelled => "Operation cancelled by user".to_string(),
        }
    }
}

} // verus!
