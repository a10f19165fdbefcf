//! Pushing files and directories of the local disk to the store: what is
//! sent for each, and in which order a tree is gone through.

use std::path::PathBuf;
use vstd::prelude::*;

use crate::error::MetadataDetectorError;
use crate::metadata_detector::{populated, MetadataDetector};
use crate::remote::{BlobMeta, BlobMetaModel, BlobType};
use crate::typing::{
    lemma_pairs_view_push, lemma_strings_view_push, pairs_over, pairs_view, strings_view,
};

verus! {

/// Why a push failed.
#[derive(Debug)]
pub enum PushError {
    MetadataPopulationError { source: MetadataDetectorError },
    /// The store did not take the blob for `path`.
    BlobPushError { path: PathBuf },
}

/// A file that was pushed.
#[derive(Debug)]
pub struct PushResult {
    pub source_path: PathBuf,
    pub blob_id: String,
    pub parent_id: Option<String>,
}

/// The size that is sent for a blob: that of the file on disk for a file
/// that was measured, 0 for every other blob.
pub open spec fn pushed_size(blob_type: BlobType, file_size: Option<u64>) -> u64 {
    match (blob_type, file_size) {
        (BlobType::File, Some(size)) => size,
        _ => 0,
    }
}

/// The metadata that is sent for the file or directory called `name`, whose
/// name has the extension `extension`: what the detector finds, the size,
/// the parent if there is one, the tags, and then the pairs of `meta_map`,
/// which replace what the detector put under the same key.
pub fn push_meta(
    name: String,
    extension: Option<&str>,
    detector: &MetadataDetector,
    tags: &Vec<String>,
    meta_map: &Vec<(String, String)>,
    blob_type: BlobType,
    file_size: Option<u64>,
    parent: Option<String>,
) -> (r: Result<BlobMeta, PushError>)
    ensures
        r is Ok,
        r->Ok_0@ == (BlobMetaModel {
            name: name@,
            blob_type,
            metadata: pairs_over(
                populated(
                    detector@,
                    match extension {
                        Some(e) => Some(e@),
                        None => None,
                    },
                    Map::empty(),
                ),
                meta_map@,
            ),
            tags: strings_view(tags@),
            parents: match parent {
                Some(p) => seq![p@],
                None => Seq::empty(),
            },
            size: pushed_size(blob_type, file_size),
        }),
{
    let mut meta = BlobMeta {
        name,
        blob_type,
        metadata: Vec::new(),
        tags: Vec::new(),
        parents: Vec::new(),
        size: 0,
    };
    assert(strings_view(meta.tags@) =~= Seq::empty());
    match detector.populate(extension, &mut meta) {
        Ok(_) => {},
        Err(source) => {
            return Err(PushError::MetadataPopulationError { source });
        },
    }
    match blob_type {
        BlobType::File => {
            if let Some(size) = file_size {
                meta.size = size;
            }
        },
        BlobType::Directory => {},
    }
    if let Some(parent) = parent {
        meta.parents.push(parent);
        assert(strings_view(meta.parents@) =~= seq![parent@]);
    }
    let ghost before = meta@;
    assert(strings_view(tags@.take(0)) =~= before.tags);
    let mut i: usize = 0;
    while i < tags.len()
        invariant
            i <= tags@.len(),
            meta@ == (BlobMetaModel { tags: strings_view(tags@.take(i as int)), ..before }),
        decreases tags@.len() - i,
    {
        proof {
            lemma_strings_view_push(meta.tags@, tags@[i as int]);
            lemma_strings_view_push(tags@.take(i as int), tags@[i as int]);
            assert(tags@.take(i + 1) =~= tags@.take(i as int).push(tags@[i as int]));
        }
        meta.tags.push(tags[i].clone());
        i = i + 1;
    }
    assert(tags@.take(i as int) == tags@);
    let ghost before = meta@;
    let mut i: usize = 0;
    while i < meta_map.len()
        invariant
            i <= meta_map@.len(),
            meta@ == (BlobMetaModel {
                metadata: pairs_over(before.metadata, meta_map@.take(i as int)),
                ..before
            }),
        decreases meta_map@.len() - i,
    {
        let pair = (meta_map[i].0.clone(), meta_map[i].1.clone());
        proof {
            lemma_pairs_view_push(meta.metadata@, pair);
            assert(meta_map@.take(i + 1).drop_last() =~= meta_map@.take(i as int));
        }
        meta.metadata.push(pair);
        i = i + 1;
    }
    assert(meta_map@.take(i as int) == meta_map@);
    Ok(meta)
}

/// The outcome of the push of the file or directory at `path`, given the
/// store's reply: the new blob's id, or the failure with the path.
pub fn push_outcome(path: PathBuf, reply: Result<String, String>) -> (r: Result<String, PushError>)
    ensures
        match reply {
            Ok(id) => r matches Ok(pushed) && pushed == id,
            Err(_) => r matches Err(PushError::BlobPushError { path: failed }) && failed == path,
        },
{
    match reply {
        Ok(id) => Ok(id),
        Err(_) => Err(PushError::BlobPushError { path }),
    }
}

/// The paths that are still to be pushed, each with the id of the blob it
/// goes under, if any. The last one is pushed next.
pub struct PushWalk {
    stack: Vec<(Option<String>, PathBuf)>,
}

impl View for PushWalk {
    type V = Seq<(Option<String>, PathBuf)>;

    closed spec fn view(&self) -> Seq<(Option<String>, PathBuf)> {
        self.stack@
    }
}

/// `paths`, each with `parent`.
pub open spec fn under_parent(parent: Option<String>, paths: Seq<PathBuf>) -> Seq<
    (Option<String>, PathBuf),
> {
    paths.map_values(|path: PathBuf| (parent, path))
}

impl PushWalk {
    /// The walk that pushes `paths`, each under `parent_id`.
    pub fn new(paths: Vec<PathBuf>, parent_id: Option<String>) -> (walk: Self)
        ensures
            walk@ == under_parent(parent_id, paths@),
    {
        let mut walk = PushWalk { stack: Vec::new() };
        walk.extend(&parent_id, paths);
        walk
    }

    /// Takes the path that is pushed next, with the parent it goes under;
    /// `None` when nothing is left.
    pub fn next(&mut self) -> (target: Option<(Option<String>, PathBuf)>)
        ensures
            match target {
                Some(target) => old(self)@.len() > 0 && target == old(self)@.last() && final(self)@
                    == old(self)@.drop_last(),
                None => old(self)@.len() == 0 && final(self)@ == old(self)@,
            },
    {
        let target = self.stack.pop();
        target
    }

    /// Adds what a directory holds, after the directory itself was pushed as
    /// the blob `directory_id`: each of `children` is to be pushed under it.
    pub fn directory_pushed(&mut self, directory_id: String, children: Vec<PathBuf>)
        ensures
            final(self)@ == old(self)@ + under_parent(Some(directory_id), children@),
    {
        let parent = Some(directory_id);
        self.extend(&parent, children);
    }

    fn extend(&mut self, parent: &Option<String>, paths: Vec<PathBuf>)
        ensures
            final(self)@ == old(self)@ + under_parent(*parent, paths@),
    {
        let ghost all = paths@;
        let ghost n = all.len() as int;
        let mut rest = paths;
        let mut reversed: Vec<PathBuf> = Vec::new();
        while rest.len() > 0
            invariant
                n == all.len(),
                rest@.len() + reversed@.len() == n,
                rest@ =~= all.take(rest@.len() as int),
                forall|j: int| 0 <= j < reversed@.len() ==> reversed@[j] == all[n - 1 - j],
            decreases rest.len(),
        {
            let path = rest.pop().unwrap();
            reversed.push(path);
        }
        while reversed.len() > 0
            invariant
                reversed@.len() <= n,
                n == all.len(),
                forall|j: int| 0 <= j < reversed@.len() ==> reversed@[j] == all[n - 1 - j],
                self@ == old(self)@ + under_parent(*parent, all.take(n - reversed@.len())),
            decreases reversed.len(),
        {
            let path = reversed.pop().unwrap();
            let parent_id = match parent {
                Some(id) => Some(id.clone()),
                None => None,
            };
            self.stack.push((parent_id, path));
        }
    }
}

} // verus!
