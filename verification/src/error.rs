//! Error kinds reported by the server lifecycles.

use vstd::prelude::*;
use vstd::string::StringExecFns;

verus! {

/// Why a lifecycle operation was refused or failed.
#[derive(Debug)]
pub enum CoreError {
    /// An operation needed a running server and found none.
    NotRunning,
    /// A start was attempted while the server was marked running.
    AlreadyRunning,
    /// The listener could not be bound to the address.
    BindFailed(String),
    /// The address is not an IP literal followed by a port.
    InvalidAddress(String),
    /// The static directory is missing or inaccessible.
    StaticDirNotFound(String),
    /// An input or output operation failed.
    IoError(String),
    /// Encoding or decoding JSON failed.
    JsonError(String),
    /// Any failure in building the scheduler, the TLS material or the
    /// responder.
    Unknown,
}

/// The error kinds with the text they carry as a sequence of characters.
pub enum CoreErrorView {
    NotRunning,
    AlreadyRunning,
    BindFailed(Seq<char>),
    InvalidAddress(Seq<char>),
    StaticDirNotFound(Seq<char>),
    IoError(Seq<char>),
    JsonError(Seq<char>),
    Unknown,
}

impl View for CoreError {
    type V = CoreErrorView;

    open spec fn view(&self) -> CoreErrorView {
        match self {
            CoreError::NotRunning => CoreErrorView::NotRunning,
            CoreError::AlreadyRunning => CoreErrorView::AlreadyRunning,
            CoreError::BindFailed(s) => CoreErrorView::BindFailed(s@),
            CoreError::InvalidAddress(s) => CoreErrorView::InvalidAddress(s@),
            CoreError::StaticDirNotFound(s) => CoreErrorView::StaticDirNotFound(s@),
            CoreError::IoError(s) => CoreErrorView::IoError(s@),
            CoreError::JsonError(s) => CoreErrorView::JsonError(s@),
            CoreError::Unknown => CoreErrorView::Unknown,
        }
    }
}

/// The sentence that describes an error kind.
pub open spec fn message_of(e: CoreErrorView) -> Seq<char> {
    match e {
        CoreErrorView::NotRunning => "Server is not running"@,
        CoreErrorView::AlreadyRunning => "Server is already running"@,
        CoreErrorView::BindFailed(s) => "Failed to bind to address: "@ + s,
        CoreErrorView::InvalidAddress(s) => "Invalid address format: "@ + s,
        CoreErrorView::StaticDirNotFound(s) => "Static directory not found: "@ + s,
        CoreErrorView::IoError(s) => "IO error: "@ + s,
        CoreErrorView::JsonError(s) => "JSON serialization error: "@ + s,
        CoreErrorView::Unknown => "Unknown error occurred"@,
    }
}

impl CoreError {
    /// The sentence that describes this error, with the reason it carries.
    pub fn message(&self) -> (text: String)
        ensures
            text@ == message_of(self@),
    {
        match self {
            CoreError::NotRunning => String::from_str("Server is not running"),
            CoreError::AlreadyRunning => String::from_str("Server is already running"),
            CoreError::BindFailed(s) => String::from_str("Failed to bind to address: ").concat(
                s.as_str(),
            ),
            CoreError::InvalidAddress(s) => String::from_str("Invalid address format: ").concat(
                s.as_str(),
            ),
            CoreError::StaticDirNotFound(s) => String::from_str(
                "Static directory not found: ",
            ).concat(s.as_str()),
            CoreError::IoError(s) => String::from_str("IO error: ").concat(s.as_str()),
            CoreError::JsonError(s) => String::from_str("JSON serialization error: ").concat(
                s.as_str(),
            ),
            CoreError::Unknown => String::from_str("Unknown error occurred"),
        }
    }
}

} // verus!
