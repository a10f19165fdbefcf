//! The file cursor: a blob id and the position of the next read or write.

use std::io::SeekFrom;
use std::string::FromUtf8Error;
use vstd::prelude::*;
use vstd::utf8::encode_utf8;
use vstd::utf8::valid_utf8;

use crate::error::{FsError, Operation};
use crate::fs::util::{get_meta, get_meta_request};
use crate::remote::{BlobMeta, BlobMetaModel, BlobType, Request, RequestModel};
use crate::store::{range, written};
use crate::typing::{FileMetadata, FileMetadataModel};
use bytes::Bytes;

verus! {

/// `std::io::SeekFrom`, with its three variants as std has them.
#[verifier::external_type_specification]
pub struct ExSeekFrom(SeekFrom);

/// `std::string::FromUtf8Error`, carried through as an opaque value.
#[verifier::external_type_specification]
#[verifier::external_body]
pub struct ExFromUtf8Error(FromUtf8Error);

/// `String::from_utf8` succeeds exactly on valid UTF-8, and the string it
/// returns is the one that these bytes encode.
pub assume_specification[ String::from_utf8 ](bytes: Vec<u8>) -> (r: Result<String, FromUtf8Error>)
    ensures
        r is Ok <==> valid_utf8(bytes@),
        r matches Ok(s) ==> encode_utf8(s@) == bytes@,
;

/// The store's metadata for a file with the attributes `m`.
pub open spec fn file_meta(m: FileMetadataModel) -> BlobMetaModel {
    BlobMetaModel {
        name: m.name,
        blob_type: BlobType::File,
        metadata: m.metadata,
        tags: m.tags,
        parents: m.parents,
        size: m.size,
    }
}

pub(crate) fn make_file_meta(m: FileMetadata) -> (meta: BlobMeta)
    ensures
        meta@ == file_meta(m@),
{
    BlobMeta {
        name: m.name,
        blob_type: BlobType::File,
        metadata: m.metadata,
        tags: m.tags,
        parents: m.parents,
        size: m.size,
    }
}

/// A file cursor, as plain mathematical values.
pub struct FileModel {
    /// The id of the blob that holds the file's content.
    pub id: Seq<char>,
    /// The position of the next read or write.
    pub offset: u64,
}

impl FileModel {
    /// The position a seek to `pos` aims at, as an integer that may lie
    /// outside the offsets. `size` is the blob's size where it is known; a
    /// seek from the end has no target without it.
    pub open spec fn seek_target(self, pos: SeekFrom, size: Option<u64>) -> Option<int> {
        match pos {
            SeekFrom::Start(n) => Some(n as int),
            SeekFrom::Current(delta) => Some(self.offset + delta),
            SeekFrom::End(delta) => match size {
                Some(size) => Some(size + delta),
                None => None,
            },
        }
    }

    /// What a seek to `pos` returns where the metadata lookup, if there was
    /// one, did not fail: the target if it is an offset, `InvalidSeek` if it
    /// is not, `NotFound` if there is none.
    pub open spec fn seek_result(self, pos: SeekFrom, size: Option<u64>) -> Result<u64, FsError> {
        match self.seek_target(pos, size) {
            Some(target) => if 0 <= target <= u64::MAX {
                Ok(target as u64)
            } else {
                Err(FsError::InvalidSeek)
            },
            None => Err(FsError::NotFound),
        }
    }

    /// The range that a read of `len` bytes asks for: from the cursor on,
    /// both ends included, cut off at the largest offset.
    pub open spec fn read_range(self, len: usize) -> (u64, u64)
        recommends
            len > 0,
    {
        (
            self.offset,
            if self.offset + len - 1 <= u64::MAX {
                (self.offset + len - 1) as u64
            } else {
                u64::MAX
            },
        )
    }

    /// The cursor `n` bytes further on.
    pub open spec fn advanced(self, n: int) -> FileModel {
        FileModel { offset: (self.offset + n) as u64, ..self }
    }
}

/// A handle on a blob that is a file: the blob's id and a cursor. Nothing of
/// the content is kept here.
#[derive(Clone, Debug)]
pub struct MenmosFile {
    blob_id: String,
    offset: u64,
}

impl View for MenmosFile {
    type V = FileModel;

    closed spec fn view(&self) -> FileModel {
        FileModel { id: self.blob_id@, offset: self.offset }
    }
}

impl MenmosFile {
    /// The request that creates an empty file with the attributes `metadata`.
    pub fn create_request(metadata: FileMetadata) -> (request: Request)
        ensures
            request@ == (RequestModel::CreateEmpty { meta: file_meta(metadata@) }),
    {
        Request::CreateEmpty { meta: make_file_meta(metadata) }
    }

    /// The handle on the file that the store created: on the id it returned,
    /// at offset 0.
    pub fn create(reply: Result<String, String>) -> (r: Result<Self, FsError>)
        ensures
            match reply {
                Ok(id) => r is Ok && r->Ok_0@ == (FileModel { id: id@, offset: 0 }),
                Err(cause) => r is Err && r->Err_0.is_remote_failure(
                    Operation::CreateEmpty,
                    None,
                    cause@,
                ),
            },
    {
        match reply {
            Ok(blob_id) => Ok(MenmosFile { blob_id, offset: 0 }),
            Err(cause) => Err(FsError::remote(Operation::CreateEmpty, None, cause)),
        }
    }

    /// The request that opening the blob `id` starts with: its metadata.
    pub fn open_request(id: &str) -> (request: Request)
        ensures
            request@ == (RequestModel::GetMeta { id: id@ }),
    {
        get_meta_request(id)
    }

    /// Opens the blob `id` as a file, given the store's reply to the metadata
    /// request: at offset 0 if the blob exists and is no directory.
    pub fn open(id: &str, reply: Result<Option<BlobMeta>, String>) -> (r: Result<Self, FsError>)
        ensures
            match reply {
                Ok(Some(meta)) => if meta.blob_type == BlobType::Directory {
                    r == Err::<Self, FsError>(FsError::TypeMismatch)
                } else {
                    r is Ok && r->Ok_0@ == (FileModel { id: id@, offset: 0 })
                },
                Ok(None) => r == Err::<Self, FsError>(FsError::NotFound),
                Err(cause) => r is Err && r->Err_0.is_remote_failure(
                    Operation::GetMeta,
                    Some(id@),
                    cause@,
                ),
            },
    {
        match get_meta(id, reply) {
            Ok(meta) => MenmosFile::open_raw(id.to_owned(), &meta),
            Err(e) => Err(e),
        }
    }

    /// Opens the blob `id` as a file, given its metadata: at offset 0 unless
    /// the blob is a directory.
    pub fn open_raw(id: String, meta: &BlobMeta) -> (r: Result<Self, FsError>)
        ensures
            if meta.blob_type == BlobType::Directory {
                r == Err::<Self, FsError>(FsError::TypeMismatch)
            } else {
                r is Ok && r->Ok_0@ == (FileModel { id: id@, offset: 0 })
            },
    {
        match meta.blob_type {
            BlobType::Directory => Err(FsError::TypeMismatch),
            BlobType::File => Ok(MenmosFile { blob_id: id, offset: 0 }),
        }
    }

    /// The id of the blob behind this file.
    pub fn id(&self) -> (id: &str)
        ensures
            id@ == self@.id,
    {
        self.blob_id.as_str()
    }

    /// The position of the next read or write.
    pub fn offset(&self) -> (offset: u64)
        ensures
            offset == self@.offset,
    {
        self.offset
    }

    /// The request that writes `buf` at the cursor.
    pub fn write_request(&self, buf: &[u8]) -> (request: Request)
        ensures
            request@ == (RequestModel::Write {
                id: self@.id,
                offset: self@.offset,
                bytes: buf@,
            }),
    {
        Request::Write {
            id: self.blob_id.clone(),
            offset: self.offset,
            bytes: Bytes::copy_from_slice(buf),
        }
    }

    /// Completes the write of `buf`, given the store's reply to the write
    /// request. The store writes all of `buf` or fails: after a success the
    /// cursor stands behind the bytes written, after a failure where it
    /// stood.
    pub fn write(&mut self, buf: &[u8], reply: Result<(), String>) -> (r: Result<usize, FsError>)
        requires
            old(self)@.offset + buf@.len() <= u64::MAX,
        ensures
            match reply {
                Ok(_) => r == Ok::<usize, FsError>(buf@.len() as usize) && final(self)@ == old(
                    self,
                )@.advanced(buf@.len() as int),
                Err(cause) => {
                    &&& r is Err
                    &&& r->Err_0.is_remote_failure(Operation::Write, Some(old(self)@.id), cause@)
                    &&& final(self)@ == old(self)@
                },
            },
    {
        match reply {
            Ok(_) => {
                let written = buf.len();
                self.offset = self.offset + written as u64;
                Ok(written)
            },
            Err(cause) => Err(FsError::remote(Operation::Write, Some(self.blob_id.as_str()), cause)),
        }
    }

    /// The request that a seek to `pos` needs first: the blob's metadata for
    /// a seek from the end, none for the others.
    pub fn seek_request(&self, pos: &SeekFrom) -> (request: Option<Request>)
        ensures
            match *pos {
                SeekFrom::End(_) => request is Some && request->Some_0@ == (RequestModel::GetMeta {
                    id: self@.id,
                }),
                _ => request is None,
            },
    {
        match pos {
            SeekFrom::End(_) => Some(get_meta_request(self.blob_id.as_str())),
            _ => None,
        }
    }

    /// Moves the cursor to `pos` and returns the new offset. `reply` is the
    /// store's reply to the request of `seek_request`, `None` where there
    /// was no request.
    ///
    /// The target is computed without wrapping. Where it is negative, or
    /// beyond the largest offset, the seek fails with `InvalidSeek`. A seek
    /// from the end fails as the metadata lookup does, and with `NotFound`
    /// without metadata. A seek that fails leaves the cursor where it stood.
    pub fn seek(&mut self, pos: SeekFrom, reply: Option<Result<Option<BlobMeta>, String>>) -> (r:
        Result<u64, FsError>)
        ensures
            final(self)@.id == old(self)@.id,
            r is Err ==> final(self)@ == old(self)@,
            r matches Ok(offset) ==> final(self)@.offset == offset,
            match (pos, reply) {
                (SeekFrom::End(_), Some(Err(cause))) => r is Err && r->Err_0.is_remote_failure(
                    Operation::GetMeta,
                    Some(old(self)@.id),
                    cause@,
                ),
                _ => r == old(self)@.seek_result(
                    pos,
                    match reply {
                        Some(Ok(Some(meta))) => Some(meta.size),
                        _ => None,
                    },
                ),
            },
    {
        let target: i128 = match pos {
            SeekFrom::Start(n) => n as i128,
            SeekFrom::Current(delta) => self.offset as i128 + delta as i128,
            SeekFrom::End(delta) => {
                let size = match reply {
                    Some(reply) => match get_meta(self.blob_id.as_str(), reply) {
                        Ok(meta) => meta.size,
                        Err(e) => {
                            return Err(e);
                        },
                    },
                    None => {
                        return Err(FsError::NotFound);
                    },
                };
                size as i128 + delta as i128
            },
        };
        if target < 0 || target > u64::MAX as i128 {
            Err(FsError::InvalidSeek)
        } else {
            self.offset = target as u64;
            Ok(self.offset)
        }
    }

    /// The request that a read into a buffer of `len` bytes sends: the range
    /// of `len` bytes from the cursor on. An empty buffer asks for nothing.
    pub fn read_request(&self, len: usize) -> (request: Option<Request>)
        ensures
            len == 0 ==> request is None,
            len > 0 ==> request is Some && request->Some_0@ == (RequestModel::ReadRange {
                id: self@.id,
                start: self@.read_range(len).0,
                end: self@.read_range(len).1,
            }),
    {
        if len == 0 {
            return None;
        }
        let end = match self.offset.checked_add((len - 1) as u64) {
            Some(end) => end,
            None => u64::MAX,
        };
        Some(Request::ReadRange { id: self.blob_id.clone(), start: self.offset, end })
    }

    /// Completes a read into `buf`, given the store's reply to the request of
    /// `read_request`, `None` where there was no request: that counts as a
    /// reply without bytes.
    ///
    /// The bytes of the reply go to the front of `buf`, the rest of `buf`
    /// stays, and the cursor advances by the number of bytes, which is
    /// returned. Fewer bytes than `buf` holds are no failure: the blob ends
    /// there. More bytes than `buf` holds, or than offsets are left, are
    /// a `ProtocolViolation`. A read that fails changes nothing.
    pub fn read(&mut self, buf: &mut [u8], reply: Option<Result<Vec<u8>, String>>) -> (r: Result<
        usize,
        FsError,
    >)
        ensures
            final(self)@.id == old(self)@.id,
            final(buf)@.len() == old(buf)@.len(),
            r is Err ==> final(self)@ == old(self)@ && final(buf)@ == old(buf)@,
            reply matches Some(Err(cause)) ==> r is Err && r->Err_0.is_remote_failure(
                Operation::ReadRange,
                Some(old(self)@.id),
                cause@,
            ),
            !(reply matches Some(Err(_))) ==> ({
                let bytes = match reply {
                    Some(Ok(bytes)) => bytes@,
                    _ => Seq::<u8>::empty(),
                };
                if bytes.len() > old(buf)@.len() || old(self)@.offset + bytes.len() > u64::MAX {
                    r == Err::<usize, FsError>(FsError::ProtocolViolation)
                } else {
                    &&& r == Ok::<usize, FsError>(bytes.len() as usize)
                    &&& final(self)@ == old(self)@.advanced(bytes.len() as int)
                    &&& final(buf)@ == bytes + old(buf)@.skip(bytes.len() as int)
                }
            }),
    {
        let bytes = match reply {
            Some(Ok(bytes)) => bytes,
            Some(Err(cause)) => {
                return Err(
                    FsError::remote(Operation::ReadRange, Some(self.blob_id.as_str()), cause),
                );
            },
            None => Vec::new(),
        };
        let n = bytes.len();
        if n > buf.len() {
            return Err(FsError::ProtocolViolation);
        }
        match self.offset.checked_add(n as u64) {
            None => Err(FsError::ProtocolViolation),
            Some(offset) => {
                let mut i: usize = 0;
                while i < n
                    invariant
                        n == bytes@.len(),
                        i <= n <= buf@.len(),
                        buf@.len() == old(buf)@.len(),
                        buf@ == bytes@.take(i as int) + old(buf)@.skip(i as int),
                    decreases n - i,
                {
                    buf[i] = bytes[i];
                    i = i + 1;
                }
                self.offset = offset;
                Ok(n)
            },
        }
    }

    /// The request that reading to the end starts with: the blob's metadata,
    /// which gives the size.
    pub fn size_request(&self) -> (request: Request)
        ensures
            request@ == (RequestModel::GetMeta { id: self@.id }),
    {
        get_meta_request(self.blob_id.as_str())
    }

    /// The request that reads from the cursor to the end of the blob, given
    /// the store's reply to the request of `size_request`: the range from
    /// the cursor to the blob's size.
    pub fn read_to_end_request(&self, reply: Result<Option<BlobMeta>, String>) -> (r: Result<
        Request,
        FsError,
    >)
        ensures
            match reply {
                Ok(Some(meta)) => r is Ok && r->Ok_0@ == (RequestModel::ReadRange {
                    id: self@.id,
                    start: self@.offset,
                    end: meta.size,
                }),
                Ok(None) => r == Err::<Request, FsError>(FsError::NotFound),
                Err(cause) => r is Err && r->Err_0.is_remote_failure(
                    Operation::GetMeta,
                    Some(self@.id),
                    cause@,
                ),
            },
    {
        match get_meta(self.blob_id.as_str(), reply) {
            Ok(meta) => Ok(
                Request::ReadRange {
                    id: self.blob_id.clone(),
                    start: self.offset,
                    end: meta.size,
                },
            ),
            Err(e) => Err(e),
        }
    }

    /// Completes a read to the end of the blob, given the store's reply to
    /// the request of `read_to_end_request`: the bytes of the reply replace
    /// what `buf` held, and the cursor advances by their number, which is
    /// returned. More bytes than offsets are left are a `ProtocolViolation`.
    /// A read that fails changes nothing.
    pub fn read_to_end(&mut self, buf: &mut Vec<u8>, reply: Result<Vec<u8>, String>) -> (r: Result<
        usize,
        FsError,
    >)
        ensures
            final(self)@.id == old(self)@.id,
            r is Err ==> final(self)@ == old(self)@ && *final(buf) == *old(buf),
            match reply {
                Ok(bytes) => if old(self)@.offset + bytes@.len() > u64::MAX {
                    r == Err::<usize, FsError>(FsError::ProtocolViolation)
                } else {
                    &&& r == Ok::<usize, FsError>(bytes@.len() as usize)
                    &&& final(self)@ == old(self)@.advanced(bytes@.len() as int)
                    &&& *final(buf) == bytes
                },
                Err(cause) => r is Err && r->Err_0.is_remote_failure(
                    Operation::ReadRange,
                    Some(old(self)@.id),
                    cause@,
                ),
            },
    {
        match reply {
            Ok(bytes) => match self.offset.checked_add(bytes.len() as u64) {
                Some(offset) => {
                    let n = bytes.len();
                    *buf = bytes;
                    self.offset = offset;
                    Ok(n)
                },
                None => Err(FsError::ProtocolViolation),
            },
            Err(cause) => Err(
                FsError::remote(Operation::ReadRange, Some(self.blob_id.as_str()), cause),
            ),
        }
    }

    /// Completes a read to the end of the blob as text, given the store's
    /// reply to the request of `read_to_end_request`.
    ///
    /// The read is done as `read_to_end` does it. Bytes that are valid UTF-8
    /// replace what `string` held. Others leave `string` as it was and fail
    /// with `InvalidEncoding`; the cursor has advanced all the same, since
    /// the bytes were read.
    pub fn read_to_string(&mut self, string: &mut String, reply: Result<Vec<u8>, String>) -> (r:
        Result<usize, FsError>)
        ensures
            final(self)@.id == old(self)@.id,
            r is Err ==> *final(string) == *old(string),
            match reply {
                Ok(bytes) => if old(self)@.offset + bytes@.len() > u64::MAX {
                    r == Err::<usize, FsError>(FsError::ProtocolViolation) && final(self)@ == old(
                        self,
                    )@
                } else {
                    &&& final(self)@ == old(self)@.advanced(bytes@.len() as int)
                    &&& if valid_utf8(bytes@) {
                        r == Ok::<usize, FsError>(bytes@.len() as usize) && encode_utf8(
                            final(string)@,
                        ) == bytes@
                    } else {
                        r == Err::<usize, FsError>(FsError::InvalidEncoding)
                    }
                },
                Err(cause) => {
                    &&& r is Err
                    &&& r->Err_0.is_remote_failure(
                        Operation::ReadRange,
                        Some(old(self)@.id),
                        cause@,
                    )
                    &&& final(self)@ == old(self)@
                },
            },
    {
        let mut v: Vec<u8> = Vec::new();
        match self.read_to_end(&mut v, reply) {
            Err(e) => Err(e),
            Ok(buf_read) => match String::from_utf8(v) {
                Ok(text) => {
                    *string = text;
                    Ok(buf_read)
                },
                Err(_) => Err(FsError::InvalidEncoding),
            },
        }
    }
}

impl FileModel {
    /// The cursor and the blob's content after a write of `buf` that the
    /// store carried out.
    pub open spec fn after_write(self, content: Seq<u8>, buf: Seq<u8>) -> (FileModel, Seq<u8>) {
        (self.advanced(buf.len() as int), written(content, self.offset, buf))
    }

    /// The bytes that come back to a read into a buffer of `len` bytes: what
    /// the store returns for the range asked for, and nothing for an empty
    /// buffer, which asks for nothing.
    pub open spec fn read_reply(self, content: Seq<u8>, len: usize) -> Seq<u8> {
        if len == 0 {
            Seq::empty()
        } else {
            range(content, self.read_range(len).0, self.read_range(len).1)
        }
    }

    /// The bytes that the store returns to a read to the end of a blob
    /// whose metadata gives the length of `content` as its size.
    pub open spec fn rest_reply(self, content: Seq<u8>) -> Seq<u8>
        recommends
            content.len() <= u64::MAX,
    {
        range(content, self.offset, content.len() as u64)
    }

    /// The cursor after a seek to `pos` that succeeded.
    pub open spec fn after_seek(self, pos: SeekFrom, size: Option<u64>) -> FileModel
        recommends
            self.seek_result(pos, size) is Ok,
    {
        FileModel { offset: self.seek_result(pos, size)->Ok_0, ..self }
    }
}

/// A write can be read back. After `buf` was written at a cursor that stood
/// within the content or at its end, a seek back to where the cursor stood
/// succeeds, and a read into a buffer as long as `buf` then gets exactly the
/// bytes of `buf`. With the cursor at 0 this is: write, seek to the start,
/// read.
pub proof fn lemma_write_then_read(file: FileModel, content: Seq<u8>, buf: Seq<u8>)
    requires
        buf.len() <= usize::MAX,
        file.offset <= content.len(),
        file.offset + buf.len() <= u64::MAX,
    ensures
        ({
            let (moved, stored) = file.after_write(content, buf);
            let back = SeekFrom::Start(file.offset);
            &&& moved.seek_result(back, None) == Ok::<u64, FsError>(file.offset)
            &&& moved.after_seek(back, None) == file
            &&& file.read_reply(stored, buf.len() as usize) == buf
        }),
{
}

/// A write replaces the bytes it covers and no others: what stood before
/// the cursor stays, and so does what stood behind the bytes written.
pub proof fn lemma_write_keeps_rest(file: FileModel, content: Seq<u8>, buf: Seq<u8>, at: int)
    requires
        file.offset <= content.len(),
        0 <= at < content.len(),
        at < file.offset || file.offset + buf.len() <= at,
    ensures
        at < file.after_write(content, buf).1.len(),
        file.after_write(content, buf).1[at] == content[at],
{
}

/// A read to the end takes all that is left. For a cursor within the content
/// or at its end, the store returns the bytes from the cursor on, and the
/// cursor then stands at the blob's size.
pub proof fn lemma_read_to_end_reaches_size(file: FileModel, content: Seq<u8>)
    requires
        file.offset <= content.len() <= u64::MAX,
    ensures
        file.rest_reply(content) == content.skip(file.offset as int),
        file.advanced(file.rest_reply(content).len() as int).offset == content.len(),
{
}

/// A cursor cannot go before the start: from offset 0, a seek one byte back
/// fails with `InvalidSeek`, as does any seek whose target is negative.
pub proof fn lemma_seek_before_start(file: FileModel, pos: SeekFrom, size: Option<u64>)
    requires
        file.seek_target(pos, size) matches Some(target) && target < 0,
    ensures
        file.seek_result(pos, size) == Err::<u64, FsError>(FsError::InvalidSeek),
{
}

} // verus!
