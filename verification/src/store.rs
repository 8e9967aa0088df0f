//! The two store operations, each cut at the points where the file system is
//! touched. The caller performs one file-system action per stage and reports
//! how it went; every decision in between is taken here.

use crate::codec::{decode, decoded, encode, encoded};
use crate::error::{ErrorView, StoreError};
use crate::location::{
    app_dir, document_path, join, resolve_app_dir, resolve_document_path, Environment,
};
use vstd::prelude::*;

verus! {

/// A write that has been asked for. The caller creates `dir` with all its
/// missing ancestors, a directory that exists already counting as created, and
/// reports the outcome to `directory_created`.
#[derive(Debug)]
pub struct WriteJob {
    /// The application directory.
    pub dir: String,
    /// The file that will hold the document.
    pub path: String,
    /// The value to store.
    pub data: serde_json::Value,
}

/// A write whose text is ready. The caller replaces the content of `path` by
/// `text` and reports the outcome to `written`.
#[derive(Debug, Clone, PartialEq, Eq)]
pub struct FileWrite {
    pub path: String,
    pub text: String,
}

/// A read that has been asked for. The caller tells `probed` whether `path`
/// exists.
#[derive(Debug, Clone, PartialEq, Eq)]
pub struct ReadJob {
    /// The name under which the document was asked for.
    pub filename: String,
    /// The file that holds the document.
    pub path: String,
}

/// A read of a file that exists. The caller reads the whole of `path` as text
/// and reports the outcome to `loaded`.
#[derive(Debug, Clone, PartialEq, Eq)]
pub struct FileRead {
    pub path: String,
}

/// The view of the outcome of a file-system action that yields nothing: on
/// failure, the system's message.
pub open spec fn io_view(outcome: Result<(), String>) -> Result<(), Seq<char>> {
    match outcome {
        Ok(_) => Ok(()),
        Err(message) => Err(message@),
    }
}

/// The view of the outcome of reading a file: its content, or, on failure,
/// the system's message.
pub open spec fn content_view(outcome: Result<String, String>) -> Result<Seq<char>, Seq<char>> {
    match outcome {
        Ok(text) => Ok(text@),
        Err(message) => Err(message@),
    }
}

/// What follows the attempt to create the application directory: the failure
/// to create it, else the failure to encode the value, else the file to write
/// and its text.
pub open spec fn write_after_directory(
    path: Seq<char>,
    data: serde_json::Value,
    created: Result<(), Seq<char>>,
) -> Result<(Seq<char>, Seq<char>), ErrorView> {
    match created {
        Err(message) => Err(ErrorView::DirectoryCreate(message)),
        Ok(_) => match encoded(data) {
            Err(e) => Err(e),
            Ok(text) => Ok((path, text)),
        },
    }
}

/// How a write ends once the file system has reported on the file.
pub open spec fn write_result(written: Result<(), Seq<char>>) -> Result<(), ErrorView> {
    match written {
        Ok(_) => Ok(()),
        Err(message) => Err(ErrorView::Write(message)),
    }
}

/// What follows the probe for the file: a missing file ends the read with the
/// name that was asked for.
pub open spec fn read_after_probe(filename: Seq<char>, present: bool) -> Option<ErrorView> {
    if present {
        None
    } else {
        Some(ErrorView::FileNotFound(filename))
    }
}

/// How a read ends once the file system has handed over the content or
/// failed to.
pub open spec fn read_result(loaded: Result<Seq<char>, Seq<char>>) -> Result<
    serde_json::Value,
    ErrorView,
> {
    match loaded {
        Err(message) => Err(ErrorView::Read(message)),
        Ok(text) => decoded(text),
    }
}

impl WriteJob {
    /// Starts the write of `data` under `filename`.
    pub fn new(env: &Environment, filename: &str, data: serde_json::Value) -> (job: WriteJob)
        ensures
            job.dir@ == app_dir(env@),
            job.path@ == document_path(env@, filename@),
            job.data == data,
    {
        let dir = resolve_app_dir(env);
        let path = join(dir.as_str(), filename);
        WriteJob { dir, path, data }
    }

    /// Takes the outcome of creating the directory. A failure ends the write.
    /// Otherwise the value is encoded: a failure to encode ends the write, and
    /// success yields the file to write.
    pub fn directory_created(self, outcome: Result<(), String>) -> (next: Result<
        FileWrite,
        StoreError,
    >)
        ensures
            match write_after_directory(self.path@, self.data, io_view(outcome)) {
                Ok((path, text)) => next matches Ok(file) && file.path@ == path && file.text@
                    == text,
                Err(e) => next matches Err(f) && f@ == e,
            },
    {
        match outcome {
            Err(message) => Err(StoreError::DirectoryCreate(message)),
            Ok(_) => match encode(&self.data) {
                Err(e) => Err(e),
                Ok(text) => Ok(FileWrite { path: self.path, text }),
            },
        }
    }
}

impl FileWrite {
    /// Takes the outcome of writing the file and ends the write.
    pub fn written(self, outcome: Result<(), String>) -> (r: Result<(), StoreError>)
        ensures
            match write_result(io_view(outcome)) {
                Ok(_) => r is Ok,
                Err(e) => r matches Err(f) && f@ == e,
            },
    {
        match outcome {
            Ok(_) => Ok(()),
            Err(message) => Err(StoreError::Write(message)),
        }
    }
}

impl ReadJob {
    /// Starts the read of the document stored under `filename`.
    pub fn new(env: &Environment, filename: &str) -> (job: ReadJob)
        ensures
            job.filename@ == filename@,
            job.path@ == document_path(env@, filename@),
    {
        ReadJob {
            filename: String::from_str(filename),
            path: resolve_document_path(env, filename),
        }
    }

    /// Takes the answer to whether the file exists. A missing file ends the
    /// read; a present one is to be read.
    pub fn probed(self, present: bool) -> (next: Result<FileRead, StoreError>)
        ensures
            match read_after_probe(self.filename@, present) {
                None => next matches Ok(file) && file.path@ == self.path@,
                Some(e) => next matches Err(f) && f@ == e,
            },
    {
        if present {
            Ok(FileRead { path: self.path })
        } else {
            Err(StoreError::FileNotFound(self.filename))
        }
    }
}

impl FileRead {
    /// Takes the outcome of reading the file and ends the read: with the
    /// failure to read, or with what decoding the content gives.
    pub fn loaded(self, outcome: Result<String, String>) -> (r: Result<
        serde_json::Value,
        StoreError,
    >)
        ensures
            match read_result(content_view(outcome)) {
                Ok(value) => r matches Ok(v) && v == value,
                Err(e) => r matches Err(f) && f@ == e,
            },
    {
        match outcome {
            Err(message) => Err(StoreError::Read(message)),
            Ok(text) => decode(text.as_str()),
        }
    }
}

} // verus!
