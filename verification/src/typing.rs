//! Blob attributes as callers give them.

use std::path::PathBuf;
use vstd::prelude::*;
use vstd::std_specs::cmp::PartialEqSpecImpl;

verus! {

/// `std::path::PathBuf`, carried through as an opaque value.
#[verifier::external_type_specification]
#[verifier::external_body]
pub struct ExPathBuf(PathBuf);

/// `PathBuf::clone`: nothing is claimed of the copy.
pub assume_specification[ <PathBuf as Clone>::clone ](path: &PathBuf) -> (copy: PathBuf);

/// The strings of `v`, each as its sequence of characters.
pub open spec fn strings_view(v: Seq<String>) -> Seq<Seq<char>> {
    v.map_values(|s: String| s@)
}

/// The map that a list of key/value pairs denotes: a later pair for a key
/// replaces an earlier one.
pub open spec fn pairs_view(v: Seq<(String, String)>) -> Map<Seq<char>, Seq<char>>
    decreases v.len(),
{
    if v.len() == 0 {
        Map::empty()
    } else {
        pairs_view(v.drop_last()).insert(v.last().0@, v.last().1@)
    }
}

/// A string added at the end of a list is added at the end of its view.
pub proof fn lemma_strings_view_push(v: Seq<String>, s: String)
    ensures
        strings_view(v.push(s)) == strings_view(v).push(s@),
{
}

/// The map `base` with the pairs of `v` put in, first to last.
pub open spec fn pairs_over(base: Map<Seq<char>, Seq<char>>, v: Seq<(String, String)>) -> Map<
    Seq<char>,
    Seq<char>,
>
    decreases v.len(),
{
    if v.len() == 0 {
        base
    } else {
        pairs_over(base, v.drop_last()).insert(v.last().0@, v.last().1@)
    }
}

/// A pair added at the end of a list is put into the map that the list
/// denotes.
pub proof fn lemma_pairs_view_push(v: Seq<(String, String)>, pair: (String, String))
    ensures
        pairs_view(v.push(pair)) == pairs_view(v).insert(pair.0@, pair.1@),
{
    assert(v.push(pair).drop_last() =~= v);
}

/// The map of a list of pairs has for `key` the value of the last pair with
/// that key.
pub proof fn lemma_pairs_view_last(pairs: Seq<(String, String)>, key: Seq<char>, at: int)
    requires
        0 <= at < pairs.len(),
        pairs[at].0@ == key,
        forall|k: int| at < k < pairs.len() ==> pairs[k].0@ != key,
    ensures
        pairs_view(pairs).contains_key(key),
        pairs_view(pairs)[key] == pairs[at].1@,
    decreases pairs.len(),
{
    if at < pairs.len() - 1 {
        lemma_pairs_view_last(pairs.drop_last(), key, at);
    }
}

/// The map of a list of pairs has an entry for `key` exactly if a pair has
/// that key.
pub proof fn lemma_pairs_view_keys(pairs: Seq<(String, String)>, key: Seq<char>)
    ensures
        pairs_view(pairs).contains_key(key) <==> exists|k: int|
            0 <= k < pairs.len() && (#[trigger] pairs[k]).0@ == key,
    decreases pairs.len(),
{
    if pairs.len() > 0 {
        let front = pairs.drop_last();
        lemma_pairs_view_keys(front, key);
        if pairs.last().0@ != key {
            if pairs_view(pairs).contains_key(key) {
                let k = choose|k: int| 0 <= k < front.len() && (#[trigger] front[k]).0@ == key;
                assert(pairs[k].0@ == key);
            } else if exists|k: int| 0 <= k < pairs.len() && (#[trigger] pairs[k]).0@ == key {
                let k = choose|k: int| 0 <= k < pairs.len() && (#[trigger] pairs[k]).0@ == key;
                assert(front[k].0@ == key);
            }
        }
    }
}

/// The value that `pairs` has for `key`: that of the last pair with that
/// key, if there is one.
pub fn find_pair<'a>(pairs: &'a Vec<(String, String)>, key: &String) -> (r: Option<&'a String>)
    ensures
        match r {
            Some(value) => pairs_view(pairs@).contains_key(key@) && value@ == pairs_view(
                pairs@,
            )[key@],
            None => !pairs_view(pairs@).contains_key(key@),
        },
{
    let mut i = pairs.len();
    while i > 0
        invariant
            i <= pairs@.len(),
            forall|k: int| i <= k < pairs@.len() ==> (#[trigger] pairs@[k]).0@ != key@,
        decreases i,
    {
        i = i - 1;
        if pairs[i].0 == *key {
            proof {
                lemma_pairs_view_last(pairs@, key@, i as int);
            }
            return Some(&pairs[i].1);
        }
    }
    proof {
        lemma_pairs_view_keys(pairs@, key@);
    }
    None
}

/// Whether `a` has nothing that `b` has not: each key of `a` is a key of `b`,
/// with the same value.
pub open spec fn map_within(a: Map<Seq<char>, Seq<char>>, b: Map<Seq<char>, Seq<char>>) -> bool {
    forall|key: Seq<char>| #[trigger] a.contains_key(key) ==> b.contains_key(key) && a[key] == b[key]
}

/// Whether each key of `a` is a key of `b`, with the same value.
pub fn pairs_within(a: &Vec<(String, String)>, b: &Vec<(String, String)>) -> (r: bool)
    ensures
        r == map_within(pairs_view(a@), pairs_view(b@)),
{
    let mut i: usize = 0;
    while i < a.len()
        invariant
            i <= a@.len(),
            forall|k: int|
                0 <= k < i ==> pairs_view(b@).contains_key((#[trigger] a@[k]).0@) && pairs_view(
                    a@,
                )[a@[k].0@] == pairs_view(b@)[a@[k].0@],
        decreases a@.len() - i,
    {
        let key = &a[i].0;
        proof {
            lemma_pairs_view_keys(a@, key@);
        }
        let same = match (find_pair(a, key), find_pair(b, key)) {
            (Some(mine), Some(theirs)) => *mine == *theirs,
            _ => false,
        };
        if !same {
            return false;
        }
        i = i + 1;
    }
    proof {
        assert forall|key: Seq<char>| #[trigger] pairs_view(a@).contains_key(key) implies pairs_view(
            b@,
        ).contains_key(key) && pairs_view(a@)[key] == pairs_view(b@)[key] by {
            lemma_pairs_view_keys(a@, key);
            let k = choose|k: int| 0 <= k < a@.len() && (#[trigger] a@[k]).0@ == key;
        }
    }
    true
}

/// Whether `a` and `b` hold the same strings in the same order.
pub fn same_strings(a: &Vec<String>, b: &Vec<String>) -> (r: bool)
    ensures
        r == (strings_view(a@) == strings_view(b@)),
{
    if a.len() != b.len() {
        return false;
    }
    let mut i: usize = 0;
    while i < a.len()
        invariant
            i <= a@.len(),
            a@.len() == b@.len(),
            forall|k: int| 0 <= k < i ==> (#[trigger] a@[k])@ == b@[k]@,
        decreases a@.len() - i,
    {
        if !(a[i] == b[i]) {
            assert(strings_view(a@)[i as int] != strings_view(b@)[i as int]);
            return false;
        }
        i = i + 1;
    }
    assert(strings_view(a@) =~= strings_view(b@));
    true
}

/// What a `FileMetadata` says, as plain mathematical values.
pub struct FileMetadataModel {
    pub name: Seq<char>,
    pub metadata: Map<Seq<char>, Seq<char>>,
    pub tags: Seq<Seq<char>>,
    pub parents: Seq<Seq<char>>,
    pub size: u64,
}

/// The metadata of a blob. Two are equal if they say the same: the order in
/// which the pairs were given does not count.
#[derive(Clone, Debug, Default)]
pub struct FileMetadata {
    /// The name of this file/folder. Does not need to be unique.
    pub name: String,
    /// The key/value pairs for this file, in the order they were given.
    /// A later pair for a key replaces an earlier one.
    pub metadata: Vec<(String, String)>,
    /// The tags for this file.
    pub tags: Vec<String>,
    /// This file's parent IDs.
    pub parents: Vec<String>,
    /// This file's size, in bytes.
    pub size: u64,
}

impl View for FileMetadata {
    type V = FileMetadataModel;

    open spec fn view(&self) -> FileMetadataModel {
        FileMetadataModel {
            name: self.name@,
            metadata: pairs_view(self.metadata@),
            tags: strings_view(self.tags@),
            parents: strings_view(self.parents@),
            size: self.size,
        }
    }
}

impl PartialEq for FileMetadata {
    fn eq(&self, other: &Self) -> (r: bool) {
        let same = self.name == other.name && self.size == other.size && same_strings(
            &self.tags,
            &other.tags,
        ) && same_strings(&self.parents, &other.parents) && pairs_within(
            &self.metadata,
            &other.metadata,
        ) && pairs_within(&other.metadata, &self.metadata);
        proof {
            if same {
                assert(self@.metadata =~= other@.metadata);
            }
        }
        same
    }
}

impl PartialEqSpecImpl for FileMetadata {
    open spec fn obeys_eq_spec() -> bool {
        true
    }

    open spec fn eq_spec(&self, other: &Self) -> bool {
        self@ == other@
    }
}

impl Eq for FileMetadata {

}

impl FileMetadata {
    /// Attributes with the given name and nothing else: no pair, no tag, no
    /// parent, size 0.
    pub fn new(name: &str) -> (r: Self)
        ensures
            r@ == (FileMetadataModel {
                name: name@,
                metadata: Map::empty(),
                tags: Seq::empty(),
                parents: Seq::empty(),
                size: 0,
            }),
    {
        let r = FileMetadata {
            name: name.to_owned(),
            metadata: Vec::new(),
            tags: Vec::new(),
            parents: Vec::new(),
            size: 0,
        };
        assert(strings_view(r.tags@) =~= Seq::empty());
        r
    }

    /// Adds `tag` after the tags already there.
    #[must_use]
    pub fn with_tag(self, tag: &str) -> (r: Self)
        ensures
            r@ == (FileMetadataModel { tags: self@.tags.push(tag@), ..self@ }),
    {
        let mut r = self;
        r.tags.push(tag.to_owned());
        assert(strings_view(r.tags@) =~= self@.tags.push(tag@));
        r
    }

    /// Sets `key` to `value`, replacing what `key` had before.
    #[must_use]
    pub fn with_meta(self, key: &str, value: &str) -> (r: Self)
        ensures
            r@ == (FileMetadataModel { metadata: self@.metadata.insert(key@, value@), ..self@ }),
    {
        let mut r = self;
        r.metadata.push((key.to_owned(), value.to_owned()));
        assert(r.metadata@.drop_last() =~= self.metadata@);
        r
    }

    /// Adds `parent` after the parents already there.
    #[must_use]
    pub fn with_parent(self, parent: &str) -> (r: Self)
        ensures
            r@ == (FileMetadataModel { parents: self@.parents.push(parent@), ..self@ }),
    {
        let mut r = self;
        r.parents.push(parent.to_owned());
        assert(strings_view(r.parents@) =~= self@.parents.push(parent@));
        r
    }

    /// Sets the size.
    #[must_use]
    pub fn with_size(self, size: u64) -> (r: Self)
        ensures
            r@ == (FileMetadataModel { size, ..self@ }),
    {
        let mut r = self;
        r.size = size;
        r
    }
}

/// A request to upload the file at `path`.
#[derive(Debug, Clone, PartialEq)]
pub struct UploadRequest {
    /// The path of the file to upload.
    pub path: PathBuf,
    pub metadata: Vec<(String, String)>,
    pub tags: Vec<String>,
    pub parent_id: Option<String>,
}

} // verus!
