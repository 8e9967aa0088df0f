//! The ways in which storing or loading a document fails.

use vstd::prelude::*;

verus! {

/// Why a store operation failed. Each variant carries the text that tells the
/// failure apart: the message of the underlying failure, or, for a missing
/// file, the name that was asked for.
#[derive(Debug, Clone, PartialEq, Eq)]
pub enum StoreError {
    /// The application directory could not be created.
    DirectoryCreate(String),
    /// The value could not be encoded as JSON text.
    Serialization(String),
    /// The encoded text could not be written to its file.
    Write(String),
    /// No file of the requested name exists.
    FileNotFound(String),
    /// The file exists but could not be read.
    Read(String),
    /// The file's content is not JSON.
    Parse(String),
}

/// A `StoreError` with its texts as sequences of characters.
pub enum ErrorView {
    DirectoryCreate(Seq<char>),
    Serialization(Seq<char>),
    Write(Seq<char>),
    FileNotFound(Seq<char>),
    Read(Seq<char>),
    Parse(Seq<char>),
}

impl View for StoreError {
    type V = ErrorView;

    open spec fn view(&self) -> ErrorView {
        match self {
            StoreError::DirectoryCreate(t) => ErrorView::DirectoryCreate(t@),
            StoreError::Serialization(t) => ErrorView::Serialization(t@),
            StoreError::Write(t) => ErrorView::Write(t@),
            StoreError::FileNotFound(t) => ErrorView::FileNotFound(t@),
            StoreError::Read(t) => ErrorView::Read(t@),
            StoreError::Parse(t) => ErrorView::Parse(t@),
        }
    }
}

impl ErrorView {
    /// The fixed text that opens the message of each kind of failure.
    pub open spec fn prefix(self) -> Seq<char> {
        match self {
            ErrorView::DirectoryCreate(_) => "Failed to create app directory: "@,
            ErrorView::Serialization(_) => "Failed to serialize JSON: "@,
            ErrorView::Write(_) => "Failed to write file: "@,
            ErrorView::FileNotFound(_) => "File does not exist: "@,
            ErrorView::Read(_) => "Failed to read file: "@,
            ErrorView::Parse(_) => "Failed to parse JSON: "@,
        }
    }

    /// The text that the failure carries.
    pub open spec fn detail(self) -> Seq<char> {
        match self {
            ErrorView::DirectoryCreate(t) => t,
            ErrorView::Serialization(t) => t,
            ErrorView::Write(t) => t,
            ErrorView::FileNotFound(t) => t,
            ErrorView::Read(t) => t,
            ErrorView::Parse(t) => t,
        }
    }

    /// The message shown to the caller: the prefix of the kind, then the detail.
    pub open spec fn message(self) -> Seq<char> {
        self.prefix() + self.detail()
    }
}

impl StoreError {
    /// The single descriptive text under which the failure is reported.
    pub fn message(&self) -> (text: String)
        ensures
            text@ == self@.message(),
    {
        match self {
            StoreError::DirectoryCreate(t) => String::from_str(
                "Failed to create app directory: ",
            ).concat(t.as_str()),
            StoreError::Serialization(t) => String::from_str("Failed to serialize JSON: ").concat(
                t.as_str(),
            ),
            StoreError::Write(t) => String::from_str("Failed to write file: ").concat(t.as_str()),
            StoreError::FileNotFound(t) => String::from_str("File does not exist: ").concat(
                t.as_str(),
            ),
            StoreError::Read(t) => String::from_str("Failed to read file: ").concat(t.as_str()),
            StoreError::Parse(t) => String::from_str("Failed to parse JSON: ").concat(t.as_str()),
        }
    }
}

} // verus!
