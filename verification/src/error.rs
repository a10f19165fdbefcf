//! The failures that the filesystem layer reports.

use vstd::prelude::*;

verus! {

/// The calls that the remote store offers.
#[derive(Clone, Copy, Debug, PartialEq, Eq, Structural)]
pub enum Operation {
    CreateEmpty,
    Write,
    ReadRange,
    GetMeta,
    Delete,
    Query,
}

/// Why an operation of the filesystem layer failed.
#[derive(Clone, Debug, PartialEq, Eq)]
pub enum FsError {
    /// The blob id does not resolve.
    NotFound,
    /// A file was required and a directory found, or the reverse.
    TypeMismatch,
    /// A directory that still has children was to be removed alone.
    DirectoryNotEmpty,
    /// The position that a seek aims at is no offset: it is negative, or
    /// beyond the largest one.
    InvalidSeek,
    /// The bytes read are not valid UTF-8.
    InvalidEncoding,
    /// The store or the transport failed. `blob_id` is the blob that the
    /// call was about, where there is one.
    RemoteFailure { operation: Operation, blob_id: Option<String>, cause: String },
    /// The store's reply contradicts what it promised: a page without hits
    /// although hits remain, or more than was asked for or can be counted.
    ProtocolViolation,
}

/// Why the metadata detector could not be set up.
#[derive(Clone, Copy, Debug, PartialEq, Eq, Structural)]
pub enum MetadataDetectorError {
    /// The table of MIME types is no JSON object of strings.
    InvalidMimeTable,
}

/// An optional string as an optional sequence of characters.
pub open spec fn opt_str_view(s: Option<String>) -> Option<Seq<char>> {
    match s {
        Some(s) => Some(s@),
        None => None,
    }
}

impl FsError {
    /// `self` reports that `operation` failed on `blob_id` with `cause`.
    pub open spec fn is_remote_failure(
        self,
        operation: Operation,
        blob_id: Option<Seq<char>>,
        cause: Seq<char>,
    ) -> bool {
        self matches FsError::RemoteFailure { operation: o, blob_id: b, cause: c } && o == operation
            && opt_str_view(b) == blob_id && c@ == cause
    }

    /// The failure of `operation` on `blob_id`, as the transport worded it.
    pub fn remote(operation: Operation, blob_id: Option<&str>, cause: String) -> (e: Self)
        ensures
            e.is_remote_failure(
                operation,
                match blob_id {
                    Some(s) => Some(s@),
                    None => None,
                },
                cause@,
            ),
    {
        let blob_id = match blob_id {
            Some(s) => Some(s.to_owned()),
            None => None,
        };
        FsError::RemoteFailure { operation, blob_id, cause }
    }
}

} // verus!
