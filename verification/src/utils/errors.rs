//! The failures of the client.

use vstd::prelude::*;
use vstd::string::StringExecFns;

verus! {

/// `anyhow::Error`, carried as an opaque value.
#[verifier::external_type_specification]
#[verifier::external_body]
pub struct ExAnyhowError(anyhow::Error);

/// `reqwest::Error`, carried as an opaque value.
#[verifier::external_type_specification]
#[verifier::external_body]
pub struct ExReqwestError(reqwest::Error);

/// `std::io::Error`, carried as an opaque value.
#[verifier::external_type_specification]
#[verifier::external_body]
pub struct ExIoError(std::io::Error);

/// `serde_json::Error`, carried as an opaque value.
#[verifier::external_type_specification]
#[verifier::external_body]
pub struct ExJsonError(serde_json::Error);

/// Every failure the client reports.
#[derive(Debug)]
pub enum AppError {
    /// The configuration could not be loaded or stored.
    Config(anyhow::Error),
    /// The transport failed before a usable response arrived.
    Network(reqwest::Error),
    /// The agent service refused a request or its event stream broke.
    Agent(String),
    /// A local read or write failed.
    Io(std::io::Error),
    /// A payload did not match the expected schema.
    Serialization(serde_json::Error),
}

/// The mathematical value of an [`AppError`]: texts by their characters, the
/// errors of other crates as they are.
pub enum AppErrorView {
    Config(anyhow::Error),
    Network(reqwest::Error),
    Agent(Seq<char>),
    Io(std::io::Error),
    Serialization(serde_json::Error),
}

impl View for AppError {
    type V = AppErrorView;

    open spec fn view(&self) -> AppErrorView {
        match self {
            AppError::Config(cause) => AppErrorView::Config(*cause),
            AppError::Network(cause) => AppErrorView::Network(*cause),
            AppError::Agent(message) => AppErrorView::Agent(message@),
            AppError::Io(cause) => AppErrorView::Io(*cause),
            AppError::Serialization(cause) => AppErrorView::Serialization(*cause),
        }
    }
}

/// Whether `text` is `prefix` followed by what `cause` shows of itself
/// through `Display`.
pub open spec fn shows<T: std::fmt::Display>(text: Seq<char>, prefix: Seq<char>, cause: &T) -> bool {
    exists|shown: String| #[trigger]
        vstd::string::to_string_from_display_ensures::<T>(cause, shown) && text == prefix + shown@
}

impl AppError {
    /// The text that tells the user what failed: the kind of the failure,
    /// then its message or what its cause shows of itself.
    pub fn message(&self) -> (text: String)
        ensures
            match self {
                AppError::Config(cause) => shows(text@, "Configuration error: "@, cause),
                AppError::Network(cause) => shows(text@, "Network error: "@, cause),
                AppError::Agent(message) => text@ == "Agent error: "@ + message@,
                AppError::Io(cause) => shows(text@, "IO error: "@, cause),
                AppError::Serialization(cause) => shows(text@, "Serialization error: "@, cause),
            },
    {
        match self {
            AppError::Config(cause) => {
                let mut text = String::from_str("Configuration error: ");
                text.append(cause.to_string().as_str());
                text
            },
            AppError::Network(cause) => {
                let mut text = String::from_str("Network error: ");
                text.append(cause.to_string().as_str());
                text
            },
            AppError::Agent(message) => {
                let mut text = String::from_str("Agent error: ");
                text.append(message.as_str());
                text
            },
            AppError::Io(cause) => {
                let mut text = String::from_str("IO error: ");
                text.append(cause.to_string().as_str());
                text
            },
            AppError::Serialization(cause) => {
                let mut text = String::from_str("Serialization error: ");
                text.append(cause.to_string().as_str());
                text
            },
        }
    }
}

/// A result with its failure taken by its view.
pub open spec fn failure_view<T>(result: Result<T, AppError>) -> Result<T, AppErrorView> {
    match result {
        Ok(value) => Ok(value),
        Err(error) => Err(error@),
    }
}

/// A text result with both sides taken by their views.
pub open spec fn text_view(result: Result<String, AppError>) -> Result<Seq<char>, AppErrorView> {
    match result {
        Ok(text) => Ok(text@),
        Err(error) => Err(error@),
    }
}

} // verus!
