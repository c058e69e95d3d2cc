//! The library's error taxonomy.
use vstd::prelude::*;

use crate::model::error::Error;

verus! {

/// Why an operation failed.
#[derive(Clone, Debug)]
pub enum RedfishError {
    /// TCP/TLS failure, timeout or reset while talking to the BMC.
    Transport(String),
    /// The BMC answered 401 or 403.
    Authentication(String),
    /// The resource is missing, or a selection found no match.
    NotFound(String),
    /// A response did not match the expected schema.
    JsonDeserializeError { url: String, body: String, message: String },
    /// The BMC answered with a structured Redfish error.
    RemoteError { status: u16, error: Error },
    /// The operation does not apply to this platform.
    NotSupported(String),
    /// A local file could not be read.
    FileError(String),
    /// A caller-supplied deadline elapsed.
    Timeout(String),
    /// A library-internal invariant was violated.
    Invariant(String),
}

} // verus!

verus! {

/// An error as plain data: its kind and the text it carries.
pub enum ErrorView {
    Transport(Seq<char>),
    Authentication(Seq<char>),
    NotFound(Seq<char>),
    JsonDeserializeError { url: Seq<char>, body: Seq<char>, message: Seq<char> },
    RemoteError { status: u16, code: Seq<char>, message: Seq<char> },
    NotSupported(Seq<char>),
    FileError(Seq<char>),
    Timeout(Seq<char>),
    Invariant(Seq<char>),
}

impl View for RedfishError {
    type V = ErrorView;

    open spec fn view(&self) -> ErrorView {
        match self {
            RedfishError::Transport(s) => ErrorView::Transport(s@),
            RedfishError::Authentication(s) => ErrorView::Authentication(s@),
            RedfishError::NotFound(s) => ErrorView::NotFound(s@),
            RedfishError::JsonDeserializeError { url, body, message } => ErrorView::JsonDeserializeError {
                url: url@,
                body: body@,
                message: message@,
            },
            RedfishError::RemoteError { status, error } => ErrorView::RemoteError {
                status: *status,
                code: error.error.code@,
                message: error.error.message@,
            },
            RedfishError::NotSupported(s) => ErrorView::NotSupported(s@),
            RedfishError::FileError(s) => ErrorView::FileError(s@),
            RedfishError::Timeout(s) => ErrorView::Timeout(s@),
            RedfishError::Invariant(s) => ErrorView::Invariant(s@),
        }
    }
}

/// A `NotSupported` error carrying `msg`.
pub fn not_supported(msg: &str) -> (e: RedfishError)
    ensures
        e@ == ErrorView::NotSupported(msg@),
{
    RedfishError::NotSupported(String::from_str(msg))
}

} // verus!
