//! The filesystem view of the store: files, directories, and what it takes
//! to create, list and remove them.

pub mod dir;
pub mod file;
pub mod util;
pub mod walk;

pub use dir::{DirEntry, MenmosDirectory};
pub use file::MenmosFile;

use vstd::prelude::*;

use crate::error::{FsError, Operation};
use crate::fs::dir::{DirEntryModel, DirModel};
use crate::fs::file::FileModel;
use crate::fs::util::{get_meta_if_exists, get_meta_request};
use crate::fs::walk::DeleteWalk;
use crate::remote::{BlobMeta, BlobType, QueryResponse, Request, RequestModel};
use crate::typing::FileMetadata;

verus! {

/// The entry point of the filesystem layer.
#[derive(Clone, Debug)]
pub struct MenmosFs {}

impl MenmosFs {
    pub fn new() -> Self {
        MenmosFs {  }
    }

    /// The request that creates an empty file with the attributes `metadata`.
    pub fn create_file_request(&self, metadata: FileMetadata) -> (request: Request)
        ensures
            request@ == (RequestModel::CreateEmpty { meta: file::file_meta(metadata@) }),
    {
        MenmosFile::create_request(metadata)
    }

    /// The handle on the file that the store created, at offset 0.
    pub fn create_file(&self, reply: Result<String, String>) -> (r: Result<MenmosFile, FsError>)
        ensures
            match reply {
                Ok(id) => r is Ok && r->Ok_0@ == (FileModel { id: id@, offset: 0 }),
                Err(cause) => r is Err && r->Err_0.is_remote_failure(
                    Operation::CreateEmpty,
                    None,
                    cause@,
                ),
            },
    {
        MenmosFile::create(reply)
    }

    /// The request that creates an empty directory with the attributes
    /// `metadata`.
    pub fn create_dir_request(&self, metadata: FileMetadata) -> (request: Request)
        ensures
            request@ == (RequestModel::CreateEmpty { meta: dir::dir_meta(metadata@) }),
    {
        MenmosDirectory::create_request(metadata)
    }

    /// The handle on the directory that the store created.
    pub fn create_dir(&self, reply: Result<String, String>) -> (r: Result<MenmosDirectory, FsError>)
        ensures
            match reply {
                Ok(id) => r is Ok && r->Ok_0@ == (DirModel { id: id@ }),
                Err(cause) => r is Err && r->Err_0.is_remote_failure(
                    Operation::CreateEmpty,
                    None,
                    cause@,
                ),
            },
    {
        MenmosDirectory::create(reply)
    }

    /// The request that every removal starts with: the metadata of the blob
    /// `id`.
    pub fn remove_request(&self, id: &str) -> (request: Request)
        ensures
            request@ == (RequestModel::GetMeta { id: id@ }),
    {
        get_meta_request(id)
    }

    /// The outcome of the request that deletes the blob `id`: the store's
    /// failure, if it failed.
    pub fn remove_blob_unchecked(&self, id: &str, reply: Result<(), String>) -> (r: Result<
        (),
        FsError,
    >)
        ensures
            match reply {
                Ok(_) => r is Ok,
                Err(cause) => r is Err && r->Err_0.is_remote_failure(
                    Operation::Delete,
                    Some(id@),
                    cause@,
                ),
            },
    {
        match reply {
            Ok(_) => Ok(()),
            Err(cause) => Err(FsError::remote(Operation::Delete, Some(id), cause)),
        }
    }

    /// Decides the removal of the file `id`, given the store's reply to the
    /// request of `remove_request`.
    ///
    /// A blob that does not exist needs nothing: `None`, and no call changes
    /// the store. A directory is refused with `TypeMismatch`. A file is
    /// deleted by the request returned.
    pub fn remove_file(&self, id: &str, reply: Result<Option<BlobMeta>, String>) -> (r: Result<
        Option<Request>,
        FsError,
    >)
        ensures
            match reply {
                Ok(None) => r == Ok::<Option<Request>, FsError>(None),
                Ok(Some(meta)) => if meta.blob_type == BlobType::Directory {
                    r == Err::<Option<Request>, FsError>(FsError::TypeMismatch)
                } else {
                    r matches Ok(Some(request)) && request@ == (RequestModel::Delete { id: id@ })
                },
                Err(cause) => r is Err && r->Err_0.is_remote_failure(
                    Operation::GetMeta,
                    Some(id@),
                    cause@,
                ),
            },
    {
        match get_meta_if_exists(id, reply) {
            Err(e) => Err(e),
            Ok(None) => Ok(None),
            Ok(Some(meta)) => match meta.blob_type {
                BlobType::Directory => Err(FsError::TypeMismatch),
                BlobType::File => Ok(Some(Request::Delete { id: id.to_owned() })),
            },
        }
    }

    /// Starts the removal of the directory `id` alone, given the store's
    /// reply to the request of `remove_request`.
    ///
    /// A blob that does not exist needs nothing: `None`, and no call changes
    /// the store. A file is refused with `TypeMismatch`. For a directory the
    /// handle is returned: ask whether it is empty, and hand the reply to
    /// `remove_dir_if_empty`.
    pub fn remove_dir(&self, id: &str, reply: Result<Option<BlobMeta>, String>) -> (r: Result<
        Option<MenmosDirectory>,
        FsError,
    >)
        ensures
            match reply {
                Ok(None) => r == Ok::<Option<MenmosDirectory>, FsError>(None),
                Ok(Some(meta)) => if meta.blob_type == BlobType::File {
                    r == Err::<Option<MenmosDirectory>, FsError>(FsError::TypeMismatch)
                } else {
                    r matches Ok(Some(dir)) && dir@ == (DirModel { id: id@ })
                },
                Err(cause) => r is Err && r->Err_0.is_remote_failure(
                    Operation::GetMeta,
                    Some(id@),
                    cause@,
                ),
            },
    {
        match get_meta_if_exists(id, reply) {
            Err(e) => Err(e),
            Ok(None) => Ok(None),
            Ok(Some(meta)) => match MenmosDirectory::open_raw(id.to_owned(), &meta) {
                Ok(dir) => Ok(Some(dir)),
                Err(e) => Err(e),
            },
        }
    }

    /// Decides the removal of the directory `dir` alone, given the store's
    /// reply to the request of `dir.is_empty_request()`: a directory without
    /// children is deleted by the request returned, one with children is
    /// refused with `DirectoryNotEmpty`.
    pub fn remove_dir_if_empty(&self, dir: &MenmosDirectory, reply: Result<QueryResponse, String>)
        -> (r: Result<Request, FsError>)
        ensures
            match reply {
                Ok(page) => if page.total == 0 {
                    r is Ok && r->Ok_0@ == (RequestModel::Delete { id: dir@.id })
                } else {
                    r == Err::<Request, FsError>(FsError::DirectoryNotEmpty)
                },
                Err(cause) => r is Err && r->Err_0.is_remote_failure(
                    Operation::Query,
                    Some(dir@.id),
                    cause@,
                ),
            },
    {
        match dir.is_empty(reply) {
            Err(e) => Err(e),
            Ok(false) => Err(FsError::DirectoryNotEmpty),
            Ok(true) => Ok(Request::Delete { id: dir.id().to_owned() }),
        }
    }

    /// Starts the removal of the directory `id` with all that is under it,
    /// given the store's reply to the request of `remove_request`.
    ///
    /// A blob that does not exist needs nothing: `None`, and no call changes
    /// the store. A file is refused with `TypeMismatch`. For a directory the
    /// walk is returned, with the directory alone on its stack.
    pub fn remove_dir_all(&self, id: &str, reply: Result<Option<BlobMeta>, String>) -> (r: Result<
        Option<DeleteWalk>,
        FsError,
    >)
        ensures
            match reply {
                Ok(None) => r is Ok && r->Ok_0 is None,
                Ok(Some(meta)) => if meta.blob_type == BlobType::File {
                    r == Err::<Option<DeleteWalk>, FsError>(FsError::TypeMismatch)
                } else {
                    r matches Ok(Some(walk)) && walk@ == seq![
                        DirEntryModel::Directory(DirModel { id: id@ }),
                    ]
                },
                Err(cause) => r is Err && r->Err_0.is_remote_failure(
                    Operation::GetMeta,
                    Some(id@),
                    cause@,
                ),
            },
    {
        match self.remove_dir(id, reply) {
            Err(e) => Err(e),
            Ok(None) => Ok(None),
            Ok(Some(dir)) => {
Ok(Some(DeleteWalk::new(dir)))
            },
        }
    }
}

} // verus!
