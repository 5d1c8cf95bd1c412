//! Failures that the bridge itself reports.

use vstd::prelude::*;
use vstd::string::*;

verus! {

/// Why a listing or an extraction did not succeed.
#[derive(Debug, Clone, PartialEq, Eq)]
pub enum ExtractError {
    /// The leading bytes match neither known container signature.
    UnsupportedFormat,
    /// The manifest holds no partition of this name.
    PartitionNotFound { name: String },
    /// The summary could not be rendered as text.
    Serialization { detail: String },
    /// A failure of reading, parsing or dumping, carried through unchanged.
    Engine { detail: String },
}

/// How a guarded call ended: with the operation's own result, or with an
/// unwind that was caught at the boundary.
#[derive(Debug, PartialEq, Eq)]
pub enum CallOutcome<T> {
    Finished(Result<T, String>),
    Panicked,
}

/// An [`ExtractError`] with its texts as sequences of characters.
pub enum ErrorView {
    UnsupportedFormat,
    PartitionNotFound { name: Seq<char> },
    Serialization { detail: Seq<char> },
    Engine { detail: Seq<char> },
}

impl View for ExtractError {
    type V = ErrorView;

    open spec fn view(&self) -> ErrorView {
        match *self {
            ExtractError::UnsupportedFormat => ErrorView::UnsupportedFormat,
            ExtractError::PartitionNotFound { name } => ErrorView::PartitionNotFound { name: name@ },
            ExtractError::Serialization { detail } => ErrorView::Serialization { detail: detail@ },
            ExtractError::Engine { detail } => ErrorView::Engine { detail: detail@ },
        }
    }
}

/// The text of an error, as a host sees it.
pub open spec fn error_text(e: ErrorView) -> Seq<char> {
    match e {
        ErrorView::UnsupportedFormat => "Unsupported file format"@,
        ErrorView::PartitionNotFound { name } => "Partition '"@ + name + "' not found"@,
        ErrorView::Serialization { detail } => "Serialization failed: "@ + detail,
        ErrorView::Engine { detail } => detail,
    }
}

impl ExtractError {
    /// Renders the error for the host.
    pub fn message(&self) -> (text: String)
        ensures
            text@ == error_text(self@),
    {
        match self {
            ExtractError::UnsupportedFormat => String::from_str("Unsupported file format"),
            ExtractError::PartitionNotFound { name } => {
                String::from_str("Partition '").concat(name.as_str()).concat("' not found")
            },
            ExtractError::Serialization { detail } => {
                String::from_str("Serialization failed: ").concat(detail.as_str())
            },
            ExtractError::Engine { detail } => detail.clone(),
        }
    }
}

} // verus!
