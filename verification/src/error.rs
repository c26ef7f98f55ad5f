//! Errors of detection, planning and Dockerfile generation.
use vstd::prelude::*;

verus! {

/// Errors that can occur during detection, planning, or Dockerfile generation.
#[derive(Debug)]
pub enum Error {
    /// No provider matched the project at this root.
    NoProviderDetected(String),
    /// A path could not be read (or does not exist).
    ReadFile { path: String, reason: String },
    /// A file was present but could not be parsed.
    Parse { path: String, message: String },
    /// A provider could not be used (e.g. an unknown configured provider).
    Provider(String),
    /// An untrusted value would have been interpolated into the Dockerfile.
    UnsafeValue { field: &'static str, value: String },
}

impl Error {
    /// Whether this is an `UnsafeValue` error about `value` in `field`.
    pub open spec fn is_unsafe_value(self, field: Seq<char>, value: Seq<char>) -> bool {
        self matches Error::UnsafeValue { field: f, value: v } && f@ == field && v@ == value
    }
}

} // verus!

verus! {

pub enum ErrorView {
    NoProviderDetected(Seq<char>),
    ReadFile { path: Seq<char>, reason: Seq<char> },
    Parse { path: Seq<char>, message: Seq<char> },
    Provider(Seq<char>),
    UnsafeValue { field: Seq<char>, value: Seq<char> },
}

impl View for Error {
    type V = ErrorView;

    open spec fn view(&self) -> ErrorView {
        match self {
            Error::NoProviderDetected(p) => ErrorView::NoProviderDetected(p@),
            Error::ReadFile { path, reason } => ErrorView::ReadFile { path: path@, reason: reason@ },
            Error::Parse { path, message } => ErrorView::Parse { path: path@, message: message@ },
            Error::Provider(m) => ErrorView::Provider(m@),
            Error::UnsafeValue { field, value } => ErrorView::UnsafeValue {
                field: field@,
                value: value@,
            },
        }
    }
}

} // verus!
