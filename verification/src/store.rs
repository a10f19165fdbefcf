//! What a store that keeps its contract answers, as mathematics.
//!
//! Nothing here runs. These functions say which reply belongs to which
//! request, so that what the filesystem layer does with the replies can be
//! stated and proved.

use vstd::prelude::*;

use crate::remote::Hit;
use crate::typing::strings_view;

verus! {

/// The hits of the page that starts at position `from` of the result
/// `matches` and holds at most `size` hits.
pub open spec fn page_hits(matches: Seq<Hit>, from: u64, size: u64) -> Seq<Hit> {
    let start = if from <= matches.len() {
        from as int
    } else {
        matches.len() as int
    };
    let end = if from + size <= matches.len() {
        from + size
    } else {
        matches.len() as int
    };
    matches.subrange(start, end)
}

/// The content of a blob after `bytes` were written at position `offset`,
/// which lies within the content or at its end: the bytes replace what was
/// there, and the content grows where they reach past its end.
pub open spec fn written(content: Seq<u8>, offset: u64, bytes: Seq<u8>) -> Seq<u8>
    recommends
        offset <= content.len(),
{
    let behind = offset + bytes.len();
    content.take(offset as int) + bytes + (if behind < content.len() {
        content.skip(behind)
    } else {
        Seq::empty()
    })
}

/// The bytes of a blob from position `start` to position `end`, both
/// included, as far as the content goes.
pub open spec fn range(content: Seq<u8>, start: u64, end: u64) -> Seq<u8> {
    if start >= content.len() || end < start {
        Seq::empty()
    } else if end + 1 <= content.len() {
        content.subrange(start as int, end + 1)
    } else {
        content.skip(start as int)
    }
}

/// Whether the blob behind `hit` is filed under the blob `parent`.
pub open spec fn has_parent(hit: Hit, parent: Seq<char>) -> bool {
    strings_view(hit.meta.parents@).contains(parent)
}

/// The test that a blob is filed under `parent`.
pub open spec fn filed_under(parent: Seq<char>) -> spec_fn(Hit) -> bool {
    |hit: Hit| has_parent(hit, parent)
}

/// The test that a blob is another one than `id`.
pub open spec fn other_than(id: Seq<char>) -> spec_fn(Hit) -> bool {
    |hit: Hit| hit.id@ != id
}

/// The result of a query for the children of `parent`, in a store that holds
/// `blobs`: those filed under `parent`, in the store's order.
pub open spec fn children_of(blobs: Seq<Hit>, parent: Seq<char>) -> Seq<Hit> {
    blobs.filter(filed_under(parent))
}

/// What a store that holds `blobs` holds after the blob `id` was deleted.
pub open spec fn without(blobs: Seq<Hit>, id: Seq<char>) -> Seq<Hit> {
    blobs.filter(other_than(id))
}

/// Whether a store that holds `blobs` has a blob `id`.
pub open spec fn resolves(blobs: Seq<Hit>, id: Seq<char>) -> bool {
    exists|hit: Hit| #[trigger] blobs.contains(hit) && hit.id@ == id
}

/// Whether no two blobs of `blobs` share an id.
pub open spec fn distinct_ids(blobs: Seq<Hit>) -> bool {
    forall|a: Hit, b: Hit|
        #[trigger] blobs.contains(a) && #[trigger] blobs.contains(b) && a.id@ == b.id@ ==> a == b
}

} // verus!
