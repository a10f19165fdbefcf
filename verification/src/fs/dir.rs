//! The directory handle and what a directory lists.

use vstd::prelude::*;

use crate::error::{FsError, Operation};
use crate::fs::file::{FileModel, MenmosFile};
use crate::fs::util::{
    get_meta, get_meta_request, scroll_query, ScrollModel, ScrollState, ScrollStep,
    ScrollStepModel,
};
use crate::remote::{
    BlobMeta, BlobMetaModel, BlobType, Hit, Query, QueryModel, QueryResponse, Request,
    RequestModel,
};
use crate::typing::{FileMetadata, FileMetadataModel};

verus! {

/// The number of entries that a listing asks the store for at a time.
pub const LIST_PAGE_SIZE: u64 = 50;

/// The store's metadata for a directory with the attributes `m`.
pub open spec fn dir_meta(m: FileMetadataModel) -> BlobMetaModel {
    BlobMetaModel {
        name: m.name,
        blob_type: BlobType::Directory,
        metadata: m.metadata,
        tags: m.tags,
        parents: m.parents,
        size: m.size,
    }
}

pub(crate) fn make_dir_meta(m: FileMetadata) -> (meta: BlobMeta)
    ensures
        meta@ == dir_meta(m@),
{
    BlobMeta {
        name: m.name,
        blob_type: BlobType::Directory,
        metadata: m.metadata,
        tags: m.tags,
        parents: m.parents,
        size: m.size,
    }
}

/// A directory handle, as plain mathematical values.
pub struct DirModel {
    /// The id of the blob that stands for the directory.
    pub id: Seq<char>,
}

impl DirModel {
    /// The query that lists the directory: its children, from the first on.
    pub open spec fn list_query(self) -> QueryModel {
        QueryModel { parent: Some(self.id), from: 0, size: LIST_PAGE_SIZE }
    }

    /// The query that counts the directory's children and fetches none.
    pub open spec fn count_query(self) -> QueryModel {
        QueryModel { parent: Some(self.id), from: 0, size: 0 }
    }
}

/// A handle on a blob that is a directory.
#[derive(Clone, Debug)]
pub struct MenmosDirectory {
    blob_id: String,
}

impl View for MenmosDirectory {
    type V = DirModel;

    closed spec fn view(&self) -> DirModel {
        DirModel { id: self.blob_id@ }
    }
}

/// What a directory holds, as plain mathematical values.
pub enum DirEntryModel {
    File(FileModel),
    Directory(DirModel),
}

impl DirEntryModel {
    /// The id of the blob behind the entry.
    pub open spec fn id(self) -> Seq<char> {
        match self {
            DirEntryModel::File(file) => file.id,
            DirEntryModel::Directory(dir) => dir.id,
        }
    }

    /// The entry that a hit of a listing stands for: a file at offset 0 for
    /// a blob that is a file, a directory for any other.
    pub open spec fn of_hit(hit: Hit) -> DirEntryModel {
        if hit.meta.blob_type == BlobType::File {
            DirEntryModel::File(FileModel { id: hit.id@, offset: 0 })
        } else {
            DirEntryModel::Directory(DirModel { id: hit.id@ })
        }
    }
}

/// All types of blobs that can be found in a directory.
#[derive(Clone, Debug)]
pub enum DirEntry {
    File(MenmosFile),
    Directory(MenmosDirectory),
}

impl View for DirEntry {
    type V = DirEntryModel;

    open spec fn view(&self) -> DirEntryModel {
        match *self {
            DirEntry::File(file) => DirEntryModel::File(file@),
            DirEntry::Directory(dir) => DirEntryModel::Directory(dir@),
        }
    }
}

impl DirEntry {
    /// The entry that `hit` stands for, by the blob type in the metadata
    /// that came with it: the store is not asked again.
    pub fn of_hit(hit: Hit) -> (entry: Self)
        ensures
            entry@ == DirEntryModel::of_hit(hit),
    {
        let Hit { id, meta } = hit;
        match meta.blob_type {
            BlobType::File => DirEntry::File(MenmosFile::open_raw(id, &meta).unwrap()),
            BlobType::Directory => DirEntry::Directory(
                MenmosDirectory::open_raw(id, &meta).unwrap(),
            ),
        }
    }

    /// The id of the blob behind the entry.
    pub fn id(&self) -> (id: &str)
        ensures
            id@ == self@.id(),
    {
        match self {
            DirEntry::File(file) => file.id(),
            DirEntry::Directory(dir) => dir.id(),
        }
    }
}

impl MenmosDirectory {
    /// The request that creates an empty directory with the attributes
    /// `metadata`.
    pub fn create_request(metadata: FileMetadata) -> (request: Request)
        ensures
            request@ == (RequestModel::CreateEmpty { meta: dir_meta(metadata@) }),
    {
        Request::CreateEmpty { meta: make_dir_meta(metadata) }
    }

    /// The handle on the directory that the store created, on the id it
    /// returned.
    pub fn create(reply: Result<String, String>) -> (r: Result<Self, FsError>)
        ensures
            match reply {
                Ok(id) => r is Ok && r->Ok_0@ == (DirModel { id: id@ }),
                Err(cause) => r is Err && r->Err_0.is_remote_failure(
                    Operation::CreateEmpty,
                    None,
                    cause@,
                ),
            },
    {
        match reply {
            Ok(blob_id) => Ok(MenmosDirectory { blob_id }),
            Err(cause) => Err(FsError::remote(Operation::CreateEmpty, None, cause)),
        }
    }

    /// The request that opening the blob `id` starts with: its metadata.
    pub fn open_request(id: &str) -> (request: Request)
        ensures
            request@ == (RequestModel::GetMeta { id: id@ }),
    {
        get_meta_request(id)
    }

    /// Opens the blob `id` as a directory, given the store's reply to the
    /// metadata request: if the blob exists and is no file.
    pub fn open(id: &str, reply: Result<Option<BlobMeta>, String>) -> (r: Result<Self, FsError>)
        ensures
            match reply {
                Ok(Some(meta)) => if meta.blob_type == BlobType::File {
                    r == Err::<Self, FsError>(FsError::TypeMismatch)
                } else {
                    r is Ok && r->Ok_0@ == (DirModel { id: id@ })
                },
                Ok(None) => r == Err::<Self, FsError>(FsError::NotFound),
                Err(cause) => r is Err && r->Err_0.is_remote_failure(
                    Operation::GetMeta,
                    Some(id@),
                    cause@,
                ),
            },
    {
        match get_meta(id, reply) {
            Ok(meta) => MenmosDirectory::open_raw(id.to_owned(), &meta),
            Err(e) => Err(e),
        }
    }

    /// Opens the blob `id` as a directory, given its metadata: unless the
    /// blob is a file.
    pub fn open_raw(id: String, meta: &BlobMeta) -> (r: Result<Self, FsError>)
        ensures
            if meta.blob_type == BlobType::File {
                r == Err::<Self, FsError>(FsError::TypeMismatch)
            } else {
                r is Ok && r->Ok_0@ == (DirModel { id: id@ })
            },
    {
        match meta.blob_type {
            BlobType::File => Err(FsError::TypeMismatch),
            BlobType::Directory => Ok(MenmosDirectory { blob_id: id }),
        }
    }

    /// Returns the ID of this directory.
    pub fn id(&self) -> (id: &str)
        ensures
            id@ == self@.id,
    {
        self.blob_id.as_str()
    }

    /// Starts a listing of the entries of this directory.
    pub fn list(&self) -> (listing: DirListing)
        ensures
            listing@ == ScrollModel::start(self@.list_query()),
    {
        DirListing {
            scroll: scroll_query(
                Query { parent: Some(self.blob_id.clone()), from: 0, size: LIST_PAGE_SIZE },
            ),
        }
    }

    /// The request that tells whether this directory has children: a query
    /// for them with a page length of 0, which fetches no hit.
    pub fn is_empty_request(&self) -> (request: Request)
        ensures
            request@ == (RequestModel::Query { query: self@.count_query() }),
    {
        Request::Query { query: Query { parent: Some(self.blob_id.clone()), from: 0, size: 0 } }
    }

    /// Whether this directory has no children, given the store's reply to
    /// the request of `is_empty_request`: whether it reports a total of 0.
    pub fn is_empty(&self, reply: Result<QueryResponse, String>) -> (r: Result<bool, FsError>)
        ensures
            match reply {
                Ok(page) => r == Ok::<bool, FsError>(page.total == 0),
                Err(cause) => r is Err && r->Err_0.is_remote_failure(
                    Operation::Query,
                    Some(self@.id),
                    cause@,
                ),
            },
    {
        match reply {
            Ok(page) => Ok(page.total == 0),
            Err(cause) => Err(FsError::remote(Operation::Query, Some(self.blob_id.as_str()), cause)),
        }
    }
}

/// What a listing does next, as plain mathematical values.
pub enum ListStepModel {
    Entry { entry: DirEntryModel },
    Fetch { request: RequestModel },
    Done,
}

impl ListStepModel {
    /// The step of a listing that a step of the scroll under it gives: a
    /// hit becomes the entry it stands for.
    pub open spec fn of_scroll(step: ScrollStepModel) -> ListStepModel {
        match step {
            ScrollStepModel::Yield { hit } => ListStepModel::Entry {
                entry: DirEntryModel::of_hit(hit),
            },
            ScrollStepModel::Fetch { request } => ListStepModel::Fetch { request },
            ScrollStepModel::Done => ListStepModel::Done,
        }
    }
}

/// What a listing does next.
#[derive(Debug)]
pub enum ListStep {
    /// The next entry of the directory.
    Entry(DirEntry),
    /// The next page has to be fetched: send the request and hand the reply
    /// to `receive`.
    Fetch(Request),
    /// The directory has no more entries.
    Done,
}

impl View for ListStep {
    type V = ListStepModel;

    open spec fn view(&self) -> ListStepModel {
        match *self {
            ListStep::Entry(entry) => ListStepModel::Entry { entry: entry@ },
            ListStep::Fetch(request) => ListStepModel::Fetch { request: request@ },
            ListStep::Done => ListStepModel::Done,
        }
    }
}

/// A listing under way: the scroll over the directory's children, which
/// yields each as the entry it stands for.
pub struct DirListing {
    scroll: ScrollState,
}

impl View for DirListing {
    type V = ScrollModel;

    closed spec fn view(&self) -> ScrollModel {
        self.scroll@
    }
}

impl DirListing {
    /// Takes the next step of the listing.
    pub fn next(&mut self) -> (step: ListStep)
        ensures
            final(self)@ == old(self)@.next().0,
            step@ == ListStepModel::of_scroll(old(self)@.next().1),
    {
        match self.scroll.next() {
            ScrollStep::Yield(hit) => ListStep::Entry(DirEntry::of_hit(hit)),
            ScrollStep::Fetch(request) => ListStep::Fetch(request),
            ScrollStep::Done => ListStep::Done,
        }
    }

    /// Takes the store's reply to the request of a `Fetch` step, as the
    /// scroll takes it.
    pub fn receive(&mut self, reply: Result<QueryResponse, String>) -> (r: Result<(), FsError>)
        ensures
            match reply {
                Err(cause) => {
                    &&& r is Err
                    &&& r->Err_0.is_remote_failure(Operation::Query, old(self)@.parent, cause@)
                    &&& final(self)@ == old(self)@
                },
                Ok(page) => if old(self)@.page_violates(page.count, page.total) {
                    r == Err::<(), FsError>(FsError::ProtocolViolation) && final(self)@ == old(
                        self,
                    )@
                } else {
                    r is Ok && final(self)@ == old(self)@.received(
                        page.hits@,
                        page.count,
                        page.total,
                    )
                },
            },
    {
        self.scroll.receive(reply)
    }
}

} // verus!
