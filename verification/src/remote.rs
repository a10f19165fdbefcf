//! What is exchanged with the remote blob store.
//!
//! The store offers six calls. A `Request` names one of them with its
//! arguments; the reply to each is a plain value: the new blob's id, nothing,
//! the bytes read, the metadata if the blob exists, nothing, one page of hits.

use bytes::Bytes;
use vstd::prelude::*;
use vstd::std_specs::cmp::PartialEqSpecImpl;

use crate::typing::{pairs_view, pairs_within, same_strings, strings_view};

verus! {

/// `bytes::Bytes`: an immutable run of bytes, opaque here.
#[verifier::external_type_specification]
#[verifier::external_body]
pub struct ExBytes(Bytes);

/// The bytes that a `Bytes` value holds, first to last.
pub uninterp spec fn bytes_view(b: Bytes) -> Seq<u8>;

/// `Bytes::copy_from_slice` copies the slice: the result holds the bytes of
/// `data`, in the same order.
pub assume_specification[ Bytes::copy_from_slice ](data: &[u8]) -> (b: Bytes)
    ensures
        bytes_view(b) == data@,
;

/// What a blob stands for. It is fixed when the blob is created.
#[derive(Clone, Copy, Debug, PartialEq, Eq, Structural)]
pub enum BlobType {
    File,
    Directory,
}

/// What a `BlobMeta` says, as plain mathematical values.
pub struct BlobMetaModel {
    pub name: Seq<char>,
    pub blob_type: BlobType,
    pub metadata: Map<Seq<char>, Seq<char>>,
    pub tags: Seq<Seq<char>>,
    pub parents: Seq<Seq<char>>,
    pub size: u64,
}

/// The metadata that the store keeps of a blob. Two are equal if they say
/// the same: the order of the pairs does not count.
#[derive(Clone, Debug)]
pub struct BlobMeta {
    pub name: String,
    pub blob_type: BlobType,
    /// Key/value pairs; a later pair for a key replaces an earlier one.
    pub metadata: Vec<(String, String)>,
    pub tags: Vec<String>,
    /// The ids of the blobs that this one is filed under.
    pub parents: Vec<String>,
    /// The length of the blob's content, in bytes.
    pub size: u64,
}

impl View for BlobMeta {
    type V = BlobMetaModel;

    open spec fn view(&self) -> BlobMetaModel {
        BlobMetaModel {
            name: self.name@,
            blob_type: self.blob_type,
            metadata: pairs_view(self.metadata@),
            tags: strings_view(self.tags@),
            parents: strings_view(self.parents@),
            size: self.size,
        }
    }
}

impl PartialEq for BlobMeta {
    fn eq(&self, other: &Self) -> (r: bool) {
        let same = self.name == other.name && self.blob_type == other.blob_type && self.size
            == other.size && same_strings(&self.tags, &other.tags) && same_strings(
            &self.parents,
            &other.parents,
        ) && pairs_within(&self.metadata, &other.metadata) && pairs_within(
            &other.metadata,
            &self.metadata,
        );
        proof {
            if same {
                assert(self@.metadata =~= other@.metadata);
            }
        }
        same
    }
}

impl PartialEqSpecImpl for BlobMeta {
    open spec fn obeys_eq_spec() -> bool {
        true
    }

    open spec fn eq_spec(&self, other: &Self) -> bool {
        self@ == other@
    }
}

impl Eq for BlobMeta {

}

/// One result of a query: a blob's id with the metadata it had then.
#[derive(Clone, Debug, PartialEq, Eq)]
pub struct Hit {
    pub id: String,
    pub meta: BlobMeta,
}

/// What a `Query` asks for, as plain mathematical values.
pub struct QueryModel {
    pub parent: Option<Seq<char>>,
    pub from: u64,
    pub size: u64,
}

/// A query for the blobs filed under `parent` (for all blobs, where there is
/// none): the page of at most `size` hits that starts at position `from` of
/// the result.
#[derive(Clone, Debug, PartialEq, Eq)]
pub struct Query {
    pub parent: Option<String>,
    pub from: u64,
    pub size: u64,
}

impl View for Query {
    type V = QueryModel;

    open spec fn view(&self) -> QueryModel {
        QueryModel {
            parent: match self.parent {
                Some(p) => Some(p@),
                None => None,
            },
            from: self.from,
            size: self.size,
        }
    }
}

/// One page of a query's result.
#[derive(Clone, Debug, PartialEq, Eq)]
pub struct QueryResponse {
    /// The hits of this page, in the store's order.
    pub hits: Vec<Hit>,
    /// How many hits this page holds.
    pub count: u64,
    /// How many blobs match the query in all, as the store saw it when it
    /// answered.
    pub total: u64,
}

/// What a `Request` asks for, as plain mathematical values.
pub enum RequestModel {
    CreateEmpty { meta: BlobMetaModel },
    Write { id: Seq<char>, offset: u64, bytes: Seq<u8> },
    ReadRange { id: Seq<char>, start: u64, end: u64 },
    GetMeta { id: Seq<char> },
    Delete { id: Seq<char> },
    Query { query: QueryModel },
}

/// A call to the remote store.
#[derive(Debug, PartialEq, Eq)]
pub enum Request {
    /// Create a blob without content and return its id.
    CreateEmpty { meta: BlobMeta },
    /// Put `bytes` into the blob's content from position `offset` on.
    Write { id: String, offset: u64, bytes: Bytes },
    /// Return the content from position `start` to position `end`, both
    /// included, as far as the content goes.
    ReadRange { id: String, start: u64, end: u64 },
    /// Return the blob's metadata, if the blob exists.
    GetMeta { id: String },
    /// Remove the blob.
    Delete { id: String },
    /// Return one page of the query's result.
    Query { query: Query },
}

impl View for Request {
    type V = RequestModel;

    open spec fn view(&self) -> RequestModel {
        match *self {
            Request::CreateEmpty { meta } => RequestModel::CreateEmpty { meta: meta@ },
            Request::Write { id, offset, bytes } => RequestModel::Write {
                id: id@,
                offset,
                bytes: bytes_view(bytes),
            },
            Request::ReadRange { id, start, end } => RequestModel::ReadRange { id: id@, start, end },
            Request::GetMeta { id } => RequestModel::GetMeta { id: id@ },
            Request::Delete { id } => RequestModel::Delete { id: id@ },
            Request::Query { query } => RequestModel::Query { query: query@ },
        }
    }
}

} // verus!
