use std::io::SeekFrom;

use menmos::error::{FsError, Operation};
use menmos::fs::dir::{DirListing, ListStep};
use menmos::fs::util::{scroll_query, ScrollStep};
use menmos::fs::walk::WalkStep;
use menmos::fs::{DirEntry, MenmosDirectory, MenmosFile, MenmosFs};
use menmos::remote::{BlobMeta, BlobType, Hit, Query, QueryResponse, Request};
use menmos::FileMetadata;

/// A store in memory that keeps the contract of the remote one, and counts
/// the calls that change it.
struct Store {
    blobs: Vec<(String, BlobMeta, Vec<u8>)>,
    created: u64,
    mutations: usize,
    queries: usize,
}

impl Store {
    fn new() -> Self {
        Store { blobs: Vec::new(), created: 0, mutations: 0, queries: 0 }
    }

    fn position(&self, id: &str) -> Option<usize> {
        self.blobs.iter().position(|b| b.0 == id)
    }

    fn create_empty(&mut self, meta: BlobMeta) -> Result<String, String> {
        self.mutations += 1;
        self.created += 1;
        let id = format!("blob-{}", self.created);
        self.blobs.push((id.clone(), meta, Vec::new()));
        Ok(id)
    }

    fn write(&mut self, id: &str, offset: u64, bytes: &[u8]) -> Result<(), String> {
        self.mutations += 1;
        let at = self.position(id).ok_or_else(|| String::from("no such blob"))?;
        let content = &mut self.blobs[at].2;
        let offset = offset as usize;
        if content.len() < offset + bytes.len() {
            content.resize(offset + bytes.len(), 0);
        }
        content[offset..offset + bytes.len()].copy_from_slice(bytes);
        Ok(())
    }

    fn read_range(&self, id: &str, start: u64, end: u64) -> Result<Vec<u8>, String> {
        let at = self.position(id).ok_or_else(|| String::from("no such blob"))?;
        let content = &self.blobs[at].2;
        let len = content.len() as u64;
        if start >= len || end < start {
            return Ok(Vec::new());
        }
        let stop = if end < len { end + 1 } else { len };
        Ok(content[start as usize..stop as usize].to_vec())
    }

    fn get_meta(&self, id: &str) -> Result<Option<BlobMeta>, String> {
        Ok(self.position(id).map(|at| {
            let mut meta = self.blobs[at].1.clone();
            meta.size = self.blobs[at].2.len() as u64;
            meta
        }))
    }

    fn delete(&mut self, id: &str) -> Result<(), String> {
        self.mutations += 1;
        self.blobs.retain(|b| b.0 != id);
        Ok(())
    }

    fn query(&mut self, query: &Query) -> Result<QueryResponse, String> {
        self.queries += 1;
        let matches: Vec<Hit> = self
            .blobs
            .iter()
            .filter(|b| match &query.parent {
                Some(parent) => b.1.parents.contains(parent),
                None => true,
            })
            .map(|b| Hit { id: b.0.clone(), meta: b.1.clone() })
            .collect();
        let total = matches.len() as u64;
        let hits: Vec<Hit> = matches
            .into_iter()
            .skip(query.from as usize)
            .take(query.size as usize)
            .collect();
        Ok(QueryResponse { count: hits.len() as u64, hits, total })
    }

    fn create(&mut self, request: Request) -> Result<String, String> {
        match request {
            Request::CreateEmpty { meta } => self.create_empty(meta),
            other => panic!("not a create request: {:?}", other),
        }
    }

    fn meta(&self, request: Request) -> Result<Option<BlobMeta>, String> {
        match request {
            Request::GetMeta { id } => self.get_meta(&id),
            other => panic!("not a metadata request: {:?}", other),
        }
    }

    fn read(&self, request: Request) -> Result<Vec<u8>, String> {
        match request {
            Request::ReadRange { id, start, end } => self.read_range(&id, start, end),
            other => panic!("not a read request: {:?}", other),
        }
    }

    fn put(&mut self, request: Request) -> Result<(), String> {
        match request {
            Request::Write { id, offset, bytes } => self.write(&id, offset, &bytes),
            other => panic!("not a write request: {:?}", other),
        }
    }

    fn remove(&mut self, request: Request) -> Result<(), String> {
        match request {
            Request::Delete { id } => self.delete(&id),
            other => panic!("not a delete request: {:?}", other),
        }
    }

    fn page(&mut self, request: Request) -> Result<QueryResponse, String> {
        match request {
            Request::Query { query } => self.query(&query),
            other => panic!("not a query request: {:?}", other),
        }
    }
}

fn create_file(store: &mut Store, metadata: FileMetadata) -> MenmosFile {
    let fs = MenmosFs::new();
    let reply = store.create(fs.create_file_request(metadata));
    fs.create_file(reply).unwrap()
}

fn create_dir(store: &mut Store, metadata: FileMetadata) -> MenmosDirectory {
    let fs = MenmosFs::new();
    let reply = store.create(fs.create_dir_request(metadata));
    fs.create_dir(reply).unwrap()
}

fn write(store: &mut Store, file: &mut MenmosFile, buf: &[u8]) -> Result<usize, FsError> {
    let reply = store.put(file.write_request(buf));
    file.write(buf, reply)
}

fn seek(store: &Store, file: &mut MenmosFile, pos: SeekFrom) -> Result<u64, FsError> {
    let reply = file.seek_request(&pos).map(|request| store.meta(request));
    file.seek(pos, reply)
}

fn read(store: &Store, file: &mut MenmosFile, buf: &mut [u8]) -> Result<usize, FsError> {
    let reply = file.read_request(buf.len()).map(|request| store.read(request));
    file.read(buf, reply)
}

fn read_to_end(store: &Store, file: &mut MenmosFile, buf: &mut Vec<u8>) -> Result<usize, FsError> {
    let request = file.read_to_end_request(store.meta(file.size_request()))?;
    file.read_to_end(buf, store.read(request))
}

fn read_to_string(store: &Store, file: &mut MenmosFile, s: &mut String) -> Result<usize, FsError> {
    let request = file.read_to_end_request(store.meta(file.size_request()))?;
    file.read_to_string(s, store.read(request))
}

fn collect(store: &mut Store, mut listing: DirListing) -> Result<Vec<DirEntry>, FsError> {
    let mut entries = Vec::new();
    loop {
        match listing.next() {
            ListStep::Entry(entry) => entries.push(entry),
            ListStep::Fetch(request) => listing.receive(store.page(request))?,
            ListStep::Done => return Ok(entries),
        }
    }
}

fn remove_file(store: &mut Store, id: &str) -> Result<(), FsError> {
    let fs = MenmosFs::new();
    let reply = store.meta(fs.remove_request(id));
    match fs.remove_file(id, reply)? {
        Some(request) => fs.remove_blob_unchecked(id, store.remove(request)),
        None => Ok(()),
    }
}

fn remove_dir(store: &mut Store, id: &str) -> Result<(), FsError> {
    let fs = MenmosFs::new();
    let reply = store.meta(fs.remove_request(id));
    match fs.remove_dir(id, reply)? {
        Some(dir) => {
            let reply = store.page(dir.is_empty_request());
            let request = fs.remove_dir_if_empty(&dir, reply)?;
            fs.remove_blob_unchecked(id, store.remove(request))
        }
        None => Ok(()),
    }
}

fn remove_dir_all(store: &mut Store, id: &str) -> Result<Vec<String>, FsError> {
    let fs = MenmosFs::new();
    let reply = store.meta(fs.remove_request(id));
    let mut deleted = Vec::new();
    let mut walk = match fs.remove_dir_all(id, reply)? {
        Some(walk) => walk,
        None => return Ok(deleted),
    };
    loop {
        let request = match walk.next() {
            WalkStep::Finished => return Ok(deleted),
            WalkStep::Delete(request) => request,
            WalkStep::List(dir) => {
                let children = collect(store, dir.list())?;
                walk.expand(&dir, children)
            }
        };
        let id = match &request {
            Request::Delete { id } => id.clone(),
            other => panic!("not a delete request: {:?}", other),
        };
        fs.remove_blob_unchecked(&id, store.remove(request))?;
        deleted.push(id);
    }
}

fn scroll_all(matches: &[Hit], size: u64) -> (Result<Vec<Hit>, FsError>, usize) {
    let mut scroll = scroll_query(Query { parent: None, from: 0, size });
    let mut out = Vec::new();
    let mut fetches = 0;
    loop {
        match scroll.next() {
            ScrollStep::Yield(hit) => out.push(hit),
            ScrollStep::Done => return (Ok(out), fetches),
            ScrollStep::Fetch(Request::Query { query }) => {
                fetches += 1;
                assert!(fetches <= matches.len() + 2);
                let hits: Vec<Hit> = matches
                    .iter()
                    .skip(query.from as usize)
                    .take(query.size as usize)
                    .cloned()
                    .collect();
                let page = QueryResponse {
                    count: hits.len() as u64,
                    hits,
                    total: matches.len() as u64,
                };
                if let Err(e) = scroll.receive(Ok(page)) {
                    return (Err(e), fetches);
                }
            }
            ScrollStep::Fetch(other) => panic!("not a query request: {:?}", other),
        }
    }
}

fn hit(id: &str, blob_type: BlobType) -> Hit {
    Hit {
        id: String::from(id),
        meta: BlobMeta {
            name: String::from(id),
            blob_type,
            metadata: Vec::new(),
            tags: Vec::new(),
            parents: Vec::new(),
            size: 0,
        },
    }
}

fn hits(n: usize) -> Vec<Hit> {
    (0..n).map(|i| hit(&format!("h{}", i), BlobType::File)).collect()
}

#[test]
fn menmos_file_api() {
    let mut store = Store::new();

    // Test file creation
    let mut file = create_file(&mut store, FileMetadata::new("test.txt").with_tag("sdk_test"));

    // Test writing to the file.
    write(&mut store, &mut file, "Hello world!".as_bytes()).unwrap();

    // Seek to beginning
    seek(&store, &mut file, SeekFrom::Start(0)).unwrap();

    // Read the first word.
    let mut buf = Vec::new();
    buf.resize(5, 0_u8);
    let n = read(&store, &mut file, &mut buf).unwrap();

    assert_eq!(n, 5);
    assert_eq!(&String::from_utf8(buf).unwrap(), "Hello");

    // After reading "hello" we should be at the space in the file. Seek by one to hit the second word.
    seek(&store, &mut file, SeekFrom::Current(1)).unwrap();
    // Overwrite "world" with "there".
    write(&mut store, &mut file, "there".as_bytes()).unwrap();

    // Seek back to the beginning.
    seek(&store, &mut file, SeekFrom::Start(0)).unwrap();

    // Read everything back.
    let mut full_buf = Vec::new();
    read_to_end(&store, &mut file, &mut full_buf).unwrap();

    assert_eq!(&String::from_utf8(full_buf).unwrap(), "Hello there!");

    // Go to the beginning again.
    seek(&store, &mut file, SeekFrom::Start(0)).unwrap();

    // Test string reading.
    let mut buf = String::new();
    read_to_string(&store, &mut file, &mut buf).unwrap();
    assert_eq!(&buf, "Hello there!");

    // Delete.
    remove_file(&mut store, file.id()).unwrap();
    assert_eq!(store.get_meta(file.id()), Ok(None));
}

#[test]
fn menmos_dir_api() {
    let mut store = Store::new();

    let dir_a = create_dir(&mut store, FileMetadata::new("dir_a").with_tag("sdk_test"));
    let dir_b = create_dir(&mut store, FileMetadata::new("dir_b").with_tag("sdk_test"));

    create_file(
        &mut store,
        FileMetadata::new("file_a").with_tag("sdk_test").with_parent(dir_a.id()),
    );
    create_file(
        &mut store,
        FileMetadata::new("file_b").with_tag("sdk_test").with_parent(dir_b.id()),
    );

    let results = collect(&mut store, dir_a.list()).unwrap();
    assert_eq!(results.len(), 1);
    assert!(matches!(&results[0], DirEntry::File(f) if f.id() == "blob-3"));
}

#[test]
fn scroll_yields_every_hit_once() {
    // total 0, below, at and above the page length, and no multiple of it
    for (total, size, fetches) in [(0, 3, 1), (2, 3, 1), (3, 3, 1), (6, 3, 2), (7, 3, 3), (5, 1, 5)] {
        let matches = hits(total);
        let (out, asked) = scroll_all(&matches, size);
        assert_eq!(out, Ok(matches));
        assert_eq!(asked, fetches);
    }
}

#[test]
fn scroll_yields_in_store_order() {
    let matches = hits(5);
    let (out, _) = scroll_all(&matches, 2);
    let ids: Vec<String> = out.unwrap().into_iter().map(|h| h.id).collect();
    assert_eq!(ids, vec!["h0", "h1", "h2", "h3", "h4"]);
}

#[test]
fn scroll_first_step_asks_for_first_page() {
    let mut scroll = scroll_query(Query { parent: Some(String::from("p")), from: 0, size: 50 });
    assert_eq!(
        scroll.next(),
        ScrollStep::Fetch(Request::Query {
            query: Query { parent: Some(String::from("p")), from: 0, size: 50 }
        })
    );
}

#[test]
fn scroll_advances_by_count() {
    let mut scroll = scroll_query(Query { parent: None, from: 4, size: 2 });
    scroll
        .receive(Ok(QueryResponse { hits: hits(2), count: 2, total: 9 }))
        .unwrap();
    assert_eq!(scroll.next(), ScrollStep::Yield(hit("h0", BlobType::File)));
    assert_eq!(scroll.next(), ScrollStep::Yield(hit("h1", BlobType::File)));
    assert_eq!(
        scroll.next(),
        ScrollStep::Fetch(Request::Query { query: Query { parent: None, from: 6, size: 2 } })
    );
    scroll
        .receive(Ok(QueryResponse { hits: hits(1), count: 3, total: 9 }))
        .unwrap();
    assert_eq!(scroll.next(), ScrollStep::Yield(hit("h0", BlobType::File)));
    assert_eq!(scroll.next(), ScrollStep::Done);
}

#[test]
fn scroll_empty_page_with_more_remaining_is_protocol_violation() {
    let mut scroll = scroll_query(Query { parent: None, from: 0, size: 10 });
    assert!(matches!(scroll.next(), ScrollStep::Fetch(_)));
    let r = scroll.receive(Ok(QueryResponse { hits: Vec::new(), count: 0, total: 4 }));
    assert_eq!(r, Err(FsError::ProtocolViolation));
    // the scroll is where it was
    assert_eq!(
        scroll.next(),
        ScrollStep::Fetch(Request::Query { query: Query { parent: None, from: 0, size: 10 } })
    );
}

#[test]
fn scroll_page_length_zero_fails_on_nonempty_result() {
    let (out, fetches) = scroll_all(&hits(3), 0);
    assert_eq!(out, Err(FsError::ProtocolViolation));
    assert_eq!(fetches, 1);
    let (out, _) = scroll_all(&hits(0), 0);
    assert_eq!(out, Ok(Vec::new()));
}

#[test]
fn scroll_count_beyond_the_countable_is_protocol_violation() {
    let mut scroll = scroll_query(Query { parent: None, from: 10, size: 10 });
    let r = scroll.receive(Ok(QueryResponse { hits: hits(1), count: u64::MAX - 9, total: u64::MAX }));
    assert_eq!(r, Err(FsError::ProtocolViolation));
    let r = scroll.receive(Ok(QueryResponse { hits: hits(1), count: u64::MAX - 10, total: u64::MAX }));
    assert_eq!(r, Ok(()));
    assert_eq!(scroll.next(), ScrollStep::Yield(hit("h0", BlobType::File)));
    assert_eq!(scroll.next(), ScrollStep::Done);
}

#[test]
fn scroll_reports_failed_query() {
    let mut scroll = scroll_query(Query { parent: Some(String::from("dir")), from: 0, size: 5 });
    let r = scroll.receive(Err(String::from("timeout")));
    assert_eq!(
        r,
        Err(FsError::RemoteFailure {
            operation: Operation::Query,
            blob_id: Some(String::from("dir")),
            cause: String::from("timeout"),
        })
    );
}

#[test]
fn write_then_read_round_trip() {
    let mut store = Store::new();
    let mut file = create_file(&mut store, FileMetadata::new("f"));
    let b: Vec<u8> = vec![0, 255, 17, 42, 42, 7];
    assert_eq!(write(&mut store, &mut file, &b), Ok(6));
    assert_eq!(seek(&store, &mut file, SeekFrom::Start(0)), Ok(0));
    let mut buf = vec![0u8; b.len()];
    assert_eq!(read(&store, &mut file, &mut buf), Ok(6));
    assert_eq!(buf, b);
}

#[test]
fn partial_overwrite() {
    let mut store = Store::new();
    let mut file = create_file(&mut store, FileMetadata::new("f"));
    write(&mut store, &mut file, b"Hello world!").unwrap();
    assert_eq!(seek(&store, &mut file, SeekFrom::Start(6)), Ok(6));
    assert_eq!(write(&mut store, &mut file, b"there"), Ok(5));
    assert_eq!(seek(&store, &mut file, SeekFrom::Start(0)), Ok(0));
    let mut buf = Vec::new();
    assert_eq!(read_to_end(&store, &mut file, &mut buf), Ok(12));
    assert_eq!(buf, b"Hello there!");
    // the cursor stands at the size
    assert_eq!(seek(&store, &mut file, SeekFrom::Current(0)), Ok(12));
}

#[test]
fn seek_before_start_fails_and_keeps_offset() {
    let mut store = Store::new();
    let mut file = create_file(&mut store, FileMetadata::new("f"));
    assert_eq!(seek(&store, &mut file, SeekFrom::Current(-1)), Err(FsError::InvalidSeek));
    assert_eq!(seek(&store, &mut file, SeekFrom::Current(0)), Ok(0));
}

#[test]
fn seek_modes() {
    let mut store = Store::new();
    let mut file = create_file(&mut store, FileMetadata::new("f"));
    write(&mut store, &mut file, b"0123456789").unwrap();
    assert_eq!(seek(&store, &mut file, SeekFrom::Start(4)), Ok(4));
    assert_eq!(seek(&store, &mut file, SeekFrom::Current(3)), Ok(7));
    assert_eq!(seek(&store, &mut file, SeekFrom::Current(-7)), Ok(0));
    assert_eq!(seek(&store, &mut file, SeekFrom::End(0)), Ok(10));
    assert_eq!(seek(&store, &mut file, SeekFrom::End(-3)), Ok(7));
    assert_eq!(seek(&store, &mut file, SeekFrom::End(5)), Ok(15));
    assert_eq!(seek(&store, &mut file, SeekFrom::End(-11)), Err(FsError::InvalidSeek));
    assert_eq!(seek(&store, &mut file, SeekFrom::Current(0)), Ok(15));
}

#[test]
fn seek_does_not_wrap() {
    let mut file = MenmosFile::create(Ok(String::from("id"))).unwrap();
    assert_eq!(file.seek(SeekFrom::Start(u64::MAX), None), Ok(u64::MAX));
    assert_eq!(file.seek(SeekFrom::Current(1), None), Err(FsError::InvalidSeek));
    assert_eq!(file.seek(SeekFrom::Current(i64::MIN), None), Ok(u64::MAX - (1 << 63)));
    assert_eq!(file.seek(SeekFrom::Current(i64::MIN), None), Err(FsError::InvalidSeek));
    assert_eq!(file.seek(SeekFrom::Current(0), None), Ok(u64::MAX - (1 << 63)));
}

#[test]
fn seek_from_end_asks_for_metadata() {
    let file = MenmosFile::create(Ok(String::from("id"))).unwrap();
    assert_eq!(
        file.seek_request(&SeekFrom::End(-1)),
        Some(Request::GetMeta { id: String::from("id") })
    );
    assert_eq!(file.seek_request(&SeekFrom::Start(3)), None);
    assert_eq!(file.seek_request(&SeekFrom::Current(3)), None);
}

#[test]
fn seek_from_end_without_blob_is_not_found() {
    let mut file = MenmosFile::create(Ok(String::from("id"))).unwrap();
    assert_eq!(file.seek(SeekFrom::End(0), Some(Ok(None))), Err(FsError::NotFound));
    assert_eq!(file.seek(SeekFrom::End(0), None), Err(FsError::NotFound));
    assert_eq!(
        file.seek(SeekFrom::End(0), Some(Err(String::from("down")))),
        Err(FsError::RemoteFailure {
            operation: Operation::GetMeta,
            blob_id: Some(String::from("id")),
            cause: String::from("down"),
        })
    );
}

#[test]
fn read_past_end_returns_fewer_bytes() {
    let mut store = Store::new();
    let mut file = create_file(&mut store, FileMetadata::new("f"));
    write(&mut store, &mut file, b"abcdef").unwrap();
    seek(&store, &mut file, SeekFrom::Start(4)).unwrap();
    let mut buf = vec![9u8; 5];
    assert_eq!(read(&store, &mut file, &mut buf), Ok(2));
    assert_eq!(buf, vec![b'e', b'f', 9, 9, 9]);
    assert_eq!(seek(&store, &mut file, SeekFrom::Current(0)), Ok(6));
    // at the end nothing is left
    assert_eq!(read(&store, &mut file, &mut buf), Ok(0));
    assert_eq!(seek(&store, &mut file, SeekFrom::Current(0)), Ok(6));
}

#[test]
fn read_asks_for_inclusive_range() {
    let mut file = MenmosFile::create(Ok(String::from("id"))).unwrap();
    file.seek(SeekFrom::Start(6), None).unwrap();
    assert_eq!(
        file.read_request(5),
        Some(Request::ReadRange { id: String::from("id"), start: 6, end: 10 })
    );
    assert_eq!(file.read_request(0), None);
    file.seek(SeekFrom::Start(u64::MAX - 1), None).unwrap();
    assert_eq!(
        file.read_request(5),
        Some(Request::ReadRange { id: String::from("id"), start: u64::MAX - 1, end: u64::MAX })
    );
}

#[test]
fn read_into_empty_buffer_reads_nothing() {
    let mut file = MenmosFile::create(Ok(String::from("id"))).unwrap();
    let mut buf: Vec<u8> = Vec::new();
    assert_eq!(file.read(&mut buf, None), Ok(0));
    assert_eq!(file.seek(SeekFrom::Current(0), None), Ok(0));
}

#[test]
fn read_rejects_more_bytes_than_asked_for() {
    let mut file = MenmosFile::create(Ok(String::from("id"))).unwrap();
    let mut buf = vec![1u8; 2];
    assert_eq!(file.read(&mut buf, Some(Ok(vec![5, 6, 7]))), Err(FsError::ProtocolViolation));
    assert_eq!(buf, vec![1, 1]);
    assert_eq!(file.seek(SeekFrom::Current(0), None), Ok(0));
}

#[test]
fn read_reports_failed_call_and_stays() {
    let mut file = MenmosFile::create(Ok(String::from("id"))).unwrap();
    file.seek(SeekFrom::Start(3), None).unwrap();
    let mut buf = vec![1u8; 2];
    assert_eq!(
        file.read(&mut buf, Some(Err(String::from("reset")))),
        Err(FsError::RemoteFailure {
            operation: Operation::ReadRange,
            blob_id: Some(String::from("id")),
            cause: String::from("reset"),
        })
    );
    assert_eq!(buf, vec![1, 1]);
    assert_eq!(file.seek(SeekFrom::Current(0), None), Ok(3));
}

#[test]
fn write_request_carries_the_bytes() {
    let mut file = MenmosFile::create(Ok(String::from("id"))).unwrap();
    file.seek(SeekFrom::Start(6), None).unwrap();
    match file.write_request(b"there") {
        Request::Write { id, offset, bytes } => {
            assert_eq!(id, "id");
            assert_eq!(offset, 6);
            assert_eq!(&bytes[..], b"there");
        }
        other => panic!("not a write request: {:?}", other),
    }
}

#[test]
fn write_failure_keeps_offset() {
    let mut file = MenmosFile::create(Ok(String::from("id"))).unwrap();
    assert_eq!(file.write(b"abc", Ok(())), Ok(3));
    assert_eq!(
        file.write(b"def", Err(String::from("full"))),
        Err(FsError::RemoteFailure {
            operation: Operation::Write,
            blob_id: Some(String::from("id")),
            cause: String::from("full"),
        })
    );
    assert_eq!(file.seek(SeekFrom::Current(0), None), Ok(3));
}

#[test]
fn read_to_end_asks_from_cursor_to_size() {
    let mut file = MenmosFile::create(Ok(String::from("id"))).unwrap();
    file.seek(SeekFrom::Start(2), None).unwrap();
    let mut meta = hit("id", BlobType::File).meta;
    meta.size = 12;
    assert_eq!(
        file.read_to_end_request(Ok(Some(meta))),
        Ok(Request::ReadRange { id: String::from("id"), start: 2, end: 12 })
    );
    assert_eq!(file.read_to_end_request(Ok(None)), Err(FsError::NotFound));
}

#[test]
fn read_to_end_replaces_buffer() {
    let mut file = MenmosFile::create(Ok(String::from("id"))).unwrap();
    let mut buf = vec![1u8, 2, 3, 4, 5, 6];
    assert_eq!(file.read_to_end(&mut buf, Ok(vec![7, 8])), Ok(2));
    assert_eq!(buf, vec![7, 8]);
    assert_eq!(file.seek(SeekFrom::Current(0), None), Ok(2));
    file.seek(SeekFrom::Start(u64::MAX - 1), None).unwrap();
    assert_eq!(file.read_to_end(&mut buf, Ok(vec![1, 2])), Err(FsError::ProtocolViolation));
    assert_eq!(buf, vec![7, 8]);
    assert_eq!(file.read_to_end(&mut buf, Ok(vec![1])), Ok(1));
    assert_eq!(file.seek(SeekFrom::Current(0), None), Ok(u64::MAX));
}

#[test]
fn read_to_string_decodes_utf8() {
    let mut file = MenmosFile::create(Ok(String::from("id"))).unwrap();
    let mut s = String::from("before");
    assert_eq!(file.read_to_string(&mut s, Ok("héllo €".as_bytes().to_vec())), Ok(10));
    assert_eq!(s, "héllo €");
    assert_eq!(file.seek(SeekFrom::Current(0), None), Ok(10));
}

#[test]
fn read_to_string_invalid_encoding_keeps_string_and_advances() {
    let mut file = MenmosFile::create(Ok(String::from("id"))).unwrap();
    let mut s = String::from("before");
    assert_eq!(
        file.read_to_string(&mut s, Ok(vec![b'a', 0xff, b'b'])),
        Err(FsError::InvalidEncoding)
    );
    assert_eq!(s, "before");
    assert_eq!(file.seek(SeekFrom::Current(0), None), Ok(3));
}

#[test]
fn create_sends_metadata_with_blob_type() {
    let metadata = FileMetadata::new("n").with_tag("t").with_meta("k", "v").with_parent("p").with_size(3);
    let expected = |blob_type| BlobMeta {
        name: String::from("n"),
        blob_type,
        metadata: vec![(String::from("k"), String::from("v"))],
        tags: vec![String::from("t")],
        parents: vec![String::from("p")],
        size: 3,
    };
    assert_eq!(
        MenmosFile::create_request(metadata.clone()),
        Request::CreateEmpty { meta: expected(BlobType::File) }
    );
    assert_eq!(
        MenmosDirectory::create_request(metadata),
        Request::CreateEmpty { meta: expected(BlobType::Directory) }
    );
}

#[test]
fn create_reports_failed_call() {
    let r = MenmosFile::create(Err(String::from("denied")));
    assert_eq!(
        r.err(),
        Some(FsError::RemoteFailure {
            operation: Operation::CreateEmpty,
            blob_id: None,
            cause: String::from("denied"),
        })
    );
    let r = MenmosDirectory::create(Err(String::from("denied")));
    assert!(matches!(r, Err(FsError::RemoteFailure { operation: Operation::CreateEmpty, .. })));
}

#[test]
fn open_guards_the_blob_type() {
    let mut store = Store::new();
    let dir = create_dir(&mut store, FileMetadata::new("d"));
    let file = create_file(&mut store, FileMetadata::new("f"));
    let before = store.mutations;

    let reply = store.meta(MenmosFile::open_request(dir.id()));
    assert_eq!(MenmosFile::open(dir.id(), reply).err(), Some(FsError::TypeMismatch));
    let reply = store.meta(MenmosDirectory::open_request(file.id()));
    assert_eq!(MenmosDirectory::open(file.id(), reply).err(), Some(FsError::TypeMismatch));

    let reply = store.meta(MenmosFile::open_request(file.id()));
    assert_eq!(MenmosFile::open(file.id(), reply).unwrap().id(), file.id());
    let reply = store.meta(MenmosDirectory::open_request(dir.id()));
    assert_eq!(MenmosDirectory::open(dir.id(), reply).unwrap().id(), dir.id());

    assert_eq!(store.mutations, before);
}

#[test]
fn open_missing_blob_is_not_found() {
    let store = Store::new();
    let reply = store.meta(MenmosFile::open_request("nope"));
    assert_eq!(MenmosFile::open("nope", reply).err(), Some(FsError::NotFound));
    let reply = store.meta(MenmosDirectory::open_request("nope"));
    assert_eq!(MenmosDirectory::open("nope", reply).err(), Some(FsError::NotFound));
}

#[test]
fn open_starts_at_offset_zero() {
    let mut store = Store::new();
    let mut file = create_file(&mut store, FileMetadata::new("f"));
    write(&mut store, &mut file, b"abc").unwrap();
    let reply = store.meta(MenmosFile::open_request(file.id()));
    let mut again = MenmosFile::open(file.id(), reply).unwrap();
    assert_eq!(seek(&store, &mut again, SeekFrom::Current(0)), Ok(0));
}

#[test]
fn removing_what_does_not_exist_succeeds_without_mutation() {
    let mut store = Store::new();
    create_file(&mut store, FileMetadata::new("f"));
    let before = store.mutations;
    assert_eq!(remove_file(&mut store, "nope"), Ok(()));
    assert_eq!(remove_dir(&mut store, "nope"), Ok(()));
    assert_eq!(remove_dir_all(&mut store, "nope"), Ok(Vec::new()));
    assert_eq!(store.mutations, before);
    assert_eq!(store.blobs.len(), 1);
}

#[test]
fn remove_guards_the_blob_type() {
    let mut store = Store::new();
    let dir = create_dir(&mut store, FileMetadata::new("d"));
    let file = create_file(&mut store, FileMetadata::new("f"));
    let before = store.mutations;
    assert_eq!(remove_file(&mut store, dir.id()), Err(FsError::TypeMismatch));
    assert_eq!(remove_dir(&mut store, file.id()), Err(FsError::TypeMismatch));
    assert_eq!(remove_dir_all(&mut store, file.id()), Err(FsError::TypeMismatch));
    assert_eq!(store.mutations, before);
    assert_eq!(store.blobs.len(), 2);
}

#[test]
fn remove_dir_refuses_directory_with_children() {
    let mut store = Store::new();
    let dir = create_dir(&mut store, FileMetadata::new("d"));
    let file = create_file(&mut store, FileMetadata::new("f").with_parent(dir.id()));
    assert_eq!(remove_dir(&mut store, dir.id()), Err(FsError::DirectoryNotEmpty));
    assert_eq!(store.blobs.len(), 2);
    assert_eq!(remove_file(&mut store, file.id()), Ok(()));
    assert_eq!(remove_dir(&mut store, dir.id()), Ok(()));
    assert_eq!(store.blobs.len(), 0);
}

#[test]
fn is_empty_asks_for_no_hits() {
    let mut store = Store::new();
    let dir = create_dir(&mut store, FileMetadata::new("d"));
    assert_eq!(
        dir.is_empty_request(),
        Request::Query { query: Query { parent: Some(String::from("blob-1")), from: 0, size: 0 } }
    );
    let reply = store.page(dir.is_empty_request());
    assert_eq!(dir.is_empty(reply), Ok(true));
    create_file(&mut store, FileMetadata::new("f").with_parent(dir.id()));
    let reply = store.page(dir.is_empty_request());
    assert_eq!(reply.as_ref().map(|page| page.hits.len()), Ok(0));
    assert_eq!(dir.is_empty(reply), Ok(false));
    assert!(matches!(
        dir.is_empty(Err(String::from("x"))),
        Err(FsError::RemoteFailure { operation: Operation::Query, .. })
    ));
}

#[test]
fn list_pages_through_large_directory() {
    let mut store = Store::new();
    let dir = create_dir(&mut store, FileMetadata::new("d"));
    for i in 0..120 {
        if i % 7 == 0 {
            create_dir(&mut store, FileMetadata::new("sub").with_parent(dir.id()));
        } else {
            create_file(&mut store, FileMetadata::new("f").with_parent(dir.id()));
        }
    }
    create_file(&mut store, FileMetadata::new("elsewhere"));
    let entries = collect(&mut store, dir.list()).unwrap();
    assert_eq!(store.queries, 3);
    assert_eq!(entries.len(), 120);
    for (i, entry) in entries.iter().enumerate() {
        assert_eq!(entry.id(), format!("blob-{}", i + 2));
        assert_eq!(matches!(entry, DirEntry::Directory(_)), i % 7 == 0);
    }
}

#[test]
fn remove_dir_all_removes_the_whole_tree() {
    let mut store = Store::new();
    let keep_dir = create_dir(&mut store, FileMetadata::new("keep"));
    let keep_file = create_file(&mut store, FileMetadata::new("kept").with_parent(keep_dir.id()));
    let root = create_dir(&mut store, FileMetadata::new("root").with_parent(keep_dir.id()));
    let a = create_dir(&mut store, FileMetadata::new("a").with_parent(root.id()));
    let b = create_dir(&mut store, FileMetadata::new("b").with_parent(root.id()));
    let f1 = create_file(&mut store, FileMetadata::new("f1").with_parent(root.id()));
    let a1 = create_file(&mut store, FileMetadata::new("a1").with_parent(a.id()));
    let aa = create_dir(&mut store, FileMetadata::new("aa").with_parent(a.id()));
    let aa1 = create_file(&mut store, FileMetadata::new("aa1").with_parent(aa.id()));
    let tree = [root.id(), a.id(), b.id(), f1.id(), a1.id(), aa.id(), aa1.id()];

    let deleted = remove_dir_all(&mut store, root.id()).unwrap();

    // a directory is deleted before what is in it, the last entry listed first
    assert_eq!(
        deleted,
        vec![root.id(), f1.id(), b.id(), a.id(), aa.id(), aa1.id(), a1.id()]
    );
    for id in tree {
        assert_eq!(store.get_meta(id), Ok(None));
        let page = store
            .query(&Query { parent: Some(String::from(id)), from: 0, size: 0 })
            .unwrap();
        assert_eq!(page.total, 0);
    }
    assert!(store.get_meta(keep_dir.id()).unwrap().is_some());
    assert!(store.get_meta(keep_file.id()).unwrap().is_some());
    assert_eq!(store.blobs.len(), 2);
}

#[test]
fn remove_dir_all_ends_on_blob_under_two_directories() {
    let mut store = Store::new();
    let root = create_dir(&mut store, FileMetadata::new("root"));
    let a = create_dir(&mut store, FileMetadata::new("a").with_parent(root.id()));
    let b = create_dir(&mut store, FileMetadata::new("b").with_parent(root.id()));
    create_dir(&mut store, FileMetadata::new("shared").with_parent(a.id()).with_parent(b.id()));
    remove_dir_all(&mut store, root.id()).unwrap();
    assert_eq!(store.blobs.len(), 0);
}

#[test]
fn remove_reports_failed_delete() {
    let fs = MenmosFs::new();
    assert_eq!(fs.remove_blob_unchecked("id", Ok(())), Ok(()));
    assert_eq!(
        fs.remove_blob_unchecked("id", Err(String::from("locked"))),
        Err(FsError::RemoteFailure {
            operation: Operation::Delete,
            blob_id: Some(String::from("id")),
            cause: String::from("locked"),
        })
    );
}

#[test]
fn file_metadata_builders() {
    let m = FileMetadata::new("test.txt");
    assert_eq!(m.name, "test.txt");
    assert!(m.metadata.is_empty() && m.tags.is_empty() && m.parents.is_empty());
    assert_eq!(m.size, 0);
    let m = m
        .with_tag("a")
        .with_tag("b")
        .with_meta("k", "1")
        .with_meta("k", "2")
        .with_parent("p")
        .with_size(9);
    assert_eq!(m.name, "test.txt");
    assert_eq!(m.tags, vec!["a", "b"]);
    assert_eq!(m.parents, vec!["p"]);
    assert_eq!(m.size, 9);
    let map: std::collections::HashMap<String, String> = m.metadata.into_iter().collect();
    assert_eq!(map.len(), 1);
    assert_eq!(map["k"], "2");
}

#[test]
fn file_metadata_equality_ignores_the_order_of_pairs() {
    let a = FileMetadata::new("n").with_meta("k", "1").with_meta("j", "2").with_tag("t");
    let b = FileMetadata::new("n").with_meta("j", "2").with_meta("k", "0").with_meta("k", "1").with_tag("t");
    assert!(a == b);
    assert!(a != b.clone().with_meta("k", "2"));
    assert!(a != b.clone().with_meta("l", "1"));
    assert!(a != b.clone().with_tag("t"));
    assert!(a != b.clone().with_parent("p"));
    assert!(a != b.clone().with_size(1));
    assert!(a != FileMetadata::new("m").with_meta("k", "1").with_meta("j", "2").with_tag("t"));
    assert!(
        FileMetadata::new("n").with_tag("a").with_tag("b")
            != FileMetadata::new("n").with_tag("b").with_tag("a")
    );
}

#[test]
fn blob_metadata_equality_ignores_the_order_of_pairs() {
    let mut a = hit("x", BlobType::File).meta;
    let mut b = hit("x", BlobType::File).meta;
    a.metadata = vec![(String::from("k"), String::from("1")), (String::from("j"), String::from("2"))];
    b.metadata = vec![(String::from("j"), String::from("2")), (String::from("k"), String::from("1"))];
    assert!(a == b);
    b.blob_type = BlobType::Directory;
    assert!(a != b);
}
