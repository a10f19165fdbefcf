//! The removal of a directory with all that is under it.

use vstd::prelude::*;

use crate::fs::dir::{DirEntry, DirEntryModel, DirModel, MenmosDirectory};
use crate::fs::util::{drain, lemma_scroll_yields_all, ScrollModel};
use crate::remote::{BlobType, Hit, Request, RequestModel};
use crate::store::{
    children_of, distinct_ids, filed_under, has_parent, other_than, resolves, without,
};

verus! {

/// What the removal of a subtree does next, as plain mathematical values.
pub enum WalkStepModel {
    Delete { request: RequestModel },
    List { dir: DirModel },
    Finished,
}

/// What the removal of a subtree does next.
#[derive(Debug)]
pub enum WalkStep {
    /// A file was taken from the stack: send the request, which deletes it.
    Delete(Request),
    /// A directory was taken from the stack: list it to the end and hand
    /// its entries to `expand`.
    List(MenmosDirectory),
    /// The stack is empty: the subtree is removed.
    Finished,
}

impl View for WalkStep {
    type V = WalkStepModel;

    open spec fn view(&self) -> WalkStepModel {
        match *self {
            WalkStep::Delete(request) => WalkStepModel::Delete { request: request@ },
            WalkStep::List(dir) => WalkStepModel::List { dir: dir@ },
            WalkStep::Finished => WalkStepModel::Finished,
        }
    }
}

/// The step that takes the top entry from `stack`, and the stack it leaves.
pub open spec fn walk_next(stack: Seq<DirEntryModel>) -> (Seq<DirEntryModel>, WalkStepModel) {
    if stack.len() == 0 {
        (stack, WalkStepModel::Finished)
    } else {
        (
            stack.drop_last(),
            match stack.last() {
                DirEntryModel::File(file) => WalkStepModel::Delete {
                    request: RequestModel::Delete { id: file.id },
                },
                DirEntryModel::Directory(dir) => WalkStepModel::List { dir },
            },
        )
    }
}

/// The removal of a directory with all that is under it: a depth-first walk
/// with a stack of its own.
///
/// A directory taken from the stack is listed, its entries are pushed, and
/// then the directory itself is deleted: the store is asked to delete a
/// directory before what is in it.
pub struct DeleteWalk {
    stack: Vec<DirEntry>,
}

impl View for DeleteWalk {
    type V = Seq<DirEntryModel>;

    closed spec fn view(&self) -> Seq<DirEntryModel> {
        self.stack@.map_values(|e: DirEntry| e@)
    }
}

impl DeleteWalk {
    /// The walk that removes `root` with all that is under it: `root` alone
    /// is on the stack.
    pub fn new(root: MenmosDirectory) -> (walk: Self)
        ensures
            walk@ == seq![DirEntryModel::Directory(root@)],
    {
        let mut stack: Vec<DirEntry> = Vec::new();
        stack.push(DirEntry::Directory(root));
        DeleteWalk { stack }
    }

    /// Takes the top entry from the stack and says what to do with it.
    pub fn next(&mut self) -> (step: WalkStep)
        ensures
            (final(self)@, step@) == walk_next(old(self)@),
    {
        match self.stack.pop() {
            None => WalkStep::Finished,
            Some(DirEntry::File(file)) => WalkStep::Delete(
                Request::Delete { id: file.id().to_owned() },
            ),
            Some(DirEntry::Directory(dir)) => WalkStep::List(dir),
        }
    }

    /// Pushes the entries of the directory `dir`, which a `List` step handed
    /// out, and returns the request that deletes `dir` itself.
    pub fn expand(&mut self, dir: &MenmosDirectory, children: Vec<DirEntry>) -> (request: Request)
        ensures
            final(self)@ == old(self)@ + children@.map_values(|e: DirEntry| e@),
            request@ == (RequestModel::Delete { id: dir@.id }),
    {
        let mut children = children;
        self.stack.append(&mut children);
        Request::Delete { id: dir.id().to_owned() }
    }
}

/// The entries that a listing makes of `hits`, in their order.
pub open spec fn entries_of(hits: Seq<Hit>) -> Seq<DirEntryModel> {
    hits.map_values(|hit: Hit| DirEntryModel::of_hit(hit))
}

/// One step of the walk against a store that holds `blobs` and keeps its
/// contract: a file taken from the stack is deleted; a directory is listed,
/// its entries are pushed, and it is deleted. What the store then holds, and
/// the stack.
pub open spec fn walk_step(blobs: Seq<Hit>, stack: Seq<DirEntryModel>) -> (
    Seq<Hit>,
    Seq<DirEntryModel>,
) {
    match walk_next(stack) {
        (rest, WalkStepModel::Delete { request }) => (without(blobs, request->Delete_id), rest),
        (rest, WalkStepModel::List { dir }) => (
            without(blobs, dir.id),
            rest + entries_of(children_of(blobs, dir.id)),
        ),
        (_, WalkStepModel::Finished) => (blobs, stack),
    }
}

/// `steps` steps of the walk, one after the other.
pub open spec fn walk_run(blobs: Seq<Hit>, stack: Seq<DirEntryModel>, steps: nat) -> (
    Seq<Hit>,
    Seq<DirEntryModel>,
)
    decreases steps,
{
    if steps == 0 {
        (blobs, stack)
    } else {
        let (blobs, stack) = walk_step(blobs, stack);
        walk_run(blobs, stack, (steps - 1) as nat)
    }
}

/// A listing is complete: against a store that holds `blobs` and keeps its
/// contract, the listing of a directory yields the directory's children, each
/// once and in the store's order. These are the entries that a step of the
/// walk pushes.
pub proof fn lemma_listing_yields_children(blobs: Seq<Hit>, dir: DirModel)
    requires
        blobs.len() <= u64::MAX,
    ensures
        drain(ScrollModel::start(dir.list_query()), children_of(blobs, dir.id)) == Some(
            children_of(blobs, dir.id),
        ),
{
    blobs.lemma_filter_len(filed_under(dir.id));
    lemma_scroll_yields_all(dir.list_query(), children_of(blobs, dir.id));
}

/// Whether `dir` is a directory that `hit` is filed under.
pub open spec fn holds(dir: Hit, hit: Hit) -> bool {
    dir.meta.blob_type == BlobType::Directory && has_parent(hit, dir.id@)
}

/// Whether `hit` is a blob of `blobs` that lies `depth` levels under the
/// blob `root`: `root` itself at depth 0, and further down each blob that is
/// filed under a directory of the level above.
pub open spec fn in_subtree(blobs: Seq<Hit>, root: Seq<char>, hit: Hit, depth: nat) -> bool
    decreases depth,
{
    blobs.contains(hit) && if depth == 0 {
        hit.id@ == root
    } else {
        exists|dir: Hit| #[trigger]
            holds(dir, hit) && in_subtree(blobs, root, dir, (depth - 1) as nat)
    }
}

/// Whether `hit` is a blob of `blobs` that is `root` or lies under it.
pub open spec fn under(blobs: Seq<Hit>, root: Seq<char>, hit: Hit) -> bool {
    exists|depth: nat| in_subtree(blobs, root, hit, depth)
}

/// Whether an entry for the blob `id` is on the stack.
spec fn on_stack(stack: Seq<DirEntryModel>, id: Seq<char>) -> bool {
    exists|i: int| 0 <= i < stack.len() && (#[trigger] stack[i]).id() == id
}

/// Whether `entry` stands for a blob of `origin` that is `root` or lies under
/// it, and says rightly whether that blob is a directory.
spec fn entry_known(origin: Seq<Hit>, root: Seq<char>, entry: DirEntryModel) -> bool {
    exists|hit: Hit, depth: nat| #[trigger]
        in_subtree(origin, root, hit, depth) && hit.id@ == entry.id() && (entry is Directory
            <==> hit.meta.blob_type == BlobType::Directory)
}

/// Whether `hit`, `depth` levels under `root`, is filed under a directory of
/// the level above that is still among `blobs`.
spec fn live_parent(origin: Seq<Hit>, root: Seq<char>, blobs: Seq<Hit>, hit: Hit, depth: nat) -> bool {
    depth > 0 && exists|dir: Hit| #[trigger]
        holds(dir, hit) && in_subtree(origin, root, dir, (depth - 1) as nat) && blobs.contains(dir)
}

/// What holds between the steps of a walk that started on `origin`: `blobs`
/// is what is left of `origin`, only blobs under `root` are gone, each entry
/// of the stack stands for a blob under `root`, and each blob under `root`
/// that is left is on the stack or has a directory above it that is left.
spec fn walk_inv(origin: Seq<Hit>, root: Seq<char>, blobs: Seq<Hit>, stack: Seq<DirEntryModel>) -> bool {
    &&& distinct_ids(origin)
    &&& forall|hit: Hit| #[trigger] blobs.contains(hit) ==> origin.contains(hit)
    &&& forall|hit: Hit| #[trigger]
        origin.contains(hit) && !blobs.contains(hit) ==> under(origin, root, hit)
    &&& forall|i: int| 0 <= i < stack.len() ==> entry_known(origin, root, #[trigger] stack[i])
    &&& forall|hit: Hit, depth: nat| #[trigger]
        in_subtree(origin, root, hit, depth) && blobs.contains(hit) ==> on_stack(stack, hit.id@)
            || live_parent(origin, root, blobs, hit, depth)
}

/// The test that the blob behind an entry is no longer among `blobs`.
spec fn is_dead(blobs: Seq<Hit>) -> spec_fn(DirEntryModel) -> bool {
    |entry: DirEntryModel| !resolves(blobs, entry.id())
}

/// The number of entries on the stack whose blob is no longer among `blobs`.
spec fn dead_entries(blobs: Seq<Hit>, stack: Seq<DirEntryModel>) -> nat {
    stack.filter(is_dead(blobs)).len()
}

/// What passes a filter is what was there and passes the test.
proof fn lemma_filter_member<A>(s: Seq<A>, pred: spec_fn(A) -> bool, x: A)
    ensures
        s.filter(pred).contains(x) <==> s.contains(x) && pred(x),
{
    if s.filter(pred).contains(x) {
        s.lemma_filter_contains_rev(pred, x);
        let i = choose|i: int| 0 <= i < s.filter(pred).len() && s.filter(pred)[i] == x;
        s.lemma_filter_pred(pred, i);
    }
    if s.contains(x) && pred(x) {
        let i = choose|i: int| 0 <= i < s.len() && s[i] == x;
        s.lemma_filter_contains(pred, i);
    }
}

/// A filter that everything passes changes nothing.
proof fn lemma_filter_all<A>(s: Seq<A>, pred: spec_fn(A) -> bool)
    requires
        forall|i: int| 0 <= i < s.len() ==> pred(#[trigger] s[i]),
    ensures
        s.filter(pred) == s,
    decreases s.len(),
{
    reveal(Seq::filter);
    if s.len() > 0 {
        lemma_filter_all(s.drop_last(), pred);
    }
}

/// A filter that nothing passes leaves nothing.
proof fn lemma_filter_none<A>(s: Seq<A>, pred: spec_fn(A) -> bool)
    requires
        forall|i: int| 0 <= i < s.len() ==> !pred(#[trigger] s[i]),
    ensures
        s.filter(pred).len() == 0,
    decreases s.len(),
{
    reveal(Seq::filter);
    if s.len() > 0 {
        lemma_filter_none(s.drop_last(), pred);
    }
}

/// A filter that something fails leaves less than there was.
proof fn lemma_filter_shorter<A>(s: Seq<A>, pred: spec_fn(A) -> bool, i: int)
    requires
        0 <= i < s.len(),
        !pred(s[i]),
    ensures
        s.filter(pred).len() < s.len(),
    decreases s.len(),
{
    reveal(Seq::filter);
    if i == s.len() - 1 {
        s.drop_last().lemma_filter_len(pred);
    } else {
        lemma_filter_shorter(s.drop_last(), pred, i);
    }
}

/// A blob filed under a directory that lies `depth` levels under `root`
/// lies one level further down.
proof fn lemma_subtree_down(blobs: Seq<Hit>, root: Seq<char>, dir: Hit, hit: Hit, depth: nat)
    requires
        in_subtree(blobs, root, dir, depth),
        dir.meta.blob_type == BlobType::Directory,
        has_parent(hit, dir.id@),
        blobs.contains(hit),
    ensures
        in_subtree(blobs, root, hit, depth + 1),
{
    assert(holds(dir, hit) && in_subtree(blobs, root, dir, ((depth + 1) - 1) as nat));
}

/// A blob that lies `depth` levels under `root`, and is not `root` itself,
/// is filed under a directory of the level above.
proof fn lemma_subtree_up(blobs: Seq<Hit>, root: Seq<char>, hit: Hit, depth: nat) -> (dir: Hit)
    requires
        in_subtree(blobs, root, hit, depth),
        depth > 0,
    ensures
        in_subtree(blobs, root, dir, (depth - 1) as nat),
        dir.meta.blob_type == BlobType::Directory,
        has_parent(hit, dir.id@),
        blobs.contains(dir),
{
    let dir = choose|dir: Hit| #[trigger]
        holds(dir, hit) && in_subtree(blobs, root, dir, (depth - 1) as nat);
    dir
}

/// With nothing on the stack, no blob under `root` is left.
proof fn lemma_empty_stack(origin: Seq<Hit>, root: Seq<char>, blobs: Seq<Hit>, hit: Hit, depth: nat)
    requires
        walk_inv(origin, root, blobs, Seq::empty()),
        in_subtree(origin, root, hit, depth),
    ensures
        !blobs.contains(hit),
    decreases depth,
{
    if blobs.contains(hit) {
        let dir = choose|dir: Hit| #[trigger]
            holds(dir, hit) && in_subtree(origin, root, dir, (depth - 1) as nat) && blobs.contains(
                dir,
            );
        lemma_empty_stack(origin, root, blobs, dir, (depth - 1) as nat);
    }
}

/// A step of the walk keeps what holds between the steps.
proof fn lemma_step_keeps_inv(
    origin: Seq<Hit>,
    root: Seq<char>,
    blobs: Seq<Hit>,
    stack: Seq<DirEntryModel>,
)
    requires
        walk_inv(origin, root, blobs, stack),
        stack.len() > 0,
    ensures
        walk_inv(origin, root, walk_step(blobs, stack).0, walk_step(blobs, stack).1),
{
    let top = stack.last();
    let id = top.id();
    let rest = stack.drop_last();
    let (blobs2, stack2) = walk_step(blobs, stack);
    let gone = other_than(id);
    let filed = filed_under(id);
    let kids = children_of(blobs, id);
    let (top_hit, top_depth) = choose|hit: Hit, depth: nat| #[trigger]
        in_subtree(origin, root, hit, depth) && hit.id@ == top.id() && (top is Directory
            <==> hit.meta.blob_type == BlobType::Directory);
    assert forall|hit: Hit| #[trigger] blobs2.contains(hit) implies origin.contains(hit) by {
        lemma_filter_member(blobs, gone, hit);
    }
    assert forall|hit: Hit| #[trigger] origin.contains(hit) && !blobs2.contains(hit) implies under(
        origin,
        root,
        hit,
    ) by {
        lemma_filter_member(blobs, gone, hit);
    }
    assert forall|i: int| 0 <= i < stack2.len() implies entry_known(
        origin,
        root,
        #[trigger] stack2[i],
    ) by {
        if i >= rest.len() {
            let kid = kids[i - rest.len()];
            lemma_filter_member(blobs, filed, kid);
            lemma_subtree_down(origin, root, top_hit, kid, top_depth);
        }
    }
    assert forall|hit: Hit, depth: nat| #[trigger]
        in_subtree(origin, root, hit, depth) && blobs2.contains(hit) implies on_stack(
        stack2,
        hit.id@,
    ) || live_parent(origin, root, blobs2, hit, depth) by {
        lemma_filter_member(blobs, gone, hit);
        if on_stack(stack, hit.id@) {
            let i = choose|i: int| 0 <= i < stack.len() && (#[trigger] stack[i]).id() == hit.id@;
            assert(stack2[i] == stack[i]);
        } else {
            let dir = choose|dir: Hit| #[trigger]
                holds(dir, hit) && in_subtree(origin, root, dir, (depth - 1) as nat)
                    && blobs.contains(dir);
            lemma_filter_member(blobs, gone, dir);
            if dir.id@ == id {
                lemma_filter_member(blobs, filed, hit);
                let k = choose|k: int| 0 <= k < kids.len() && kids[k] == hit;
                assert(stack2[rest.len() + k] == DirEntryModel::of_hit(hit));
            }
        }
    }
}

/// A step of the walk brings it nearer to its end: a blob leaves the store,
/// or the store stays and an entry whose blob is gone leaves the stack.
proof fn lemma_step_decreases(blobs: Seq<Hit>, stack: Seq<DirEntryModel>)
    requires
        stack.len() > 0,
    ensures
        walk_step(blobs, stack).0.len() < blobs.len() || (walk_step(blobs, stack).0 == blobs
            && dead_entries(blobs, walk_step(blobs, stack).1) < dead_entries(blobs, stack)),
{
    let top = stack.last();
    let id = top.id();
    let rest = stack.drop_last();
    let stack2 = walk_step(blobs, stack).1;
    let gone = other_than(id);
    let filed = filed_under(id);
    let dead = is_dead(blobs);
    if resolves(blobs, id) {
        let hit = choose|hit: Hit| #[trigger] blobs.contains(hit) && hit.id@ == id;
        let i = choose|i: int| 0 <= i < blobs.len() && blobs[i] == hit;
        lemma_filter_shorter(blobs, gone, i);
    } else {
        assert forall|i: int| 0 <= i < blobs.len() implies gone(#[trigger] blobs[i]) by {
            assert(blobs.contains(blobs[i]));
        }
        lemma_filter_all(blobs, gone);
        assert(stack.filter(dead) == rest.filter(dead).push(top)) by {
            reveal(Seq::filter);
        }
        let pushed = stack2.skip(rest.len() as int);
        assert(stack2 =~= rest + pushed);
        assert forall|k: int| 0 <= k < pushed.len() implies !dead(#[trigger] pushed[k]) by {
            let kid = children_of(blobs, id)[k];
            lemma_filter_member(blobs, filed, kid);
        }
        lemma_filter_none(pushed, dead);
        Seq::filter_distributes_over_add(rest, pushed, dead);
    }
}

/// The walk comes to an end, and what holds between the steps holds then.
proof fn lemma_walk_ends(
    origin: Seq<Hit>,
    root: Seq<char>,
    blobs: Seq<Hit>,
    stack: Seq<DirEntryModel>,
) -> (steps: nat)
    requires
        walk_inv(origin, root, blobs, stack),
    ensures
        walk_run(blobs, stack, steps).1.len() == 0,
        walk_inv(origin, root, walk_run(blobs, stack, steps).0, Seq::empty()),
    decreases blobs.len(), dead_entries(blobs, stack),
{
    if stack.len() == 0 {
        0
    } else {
        lemma_step_keeps_inv(origin, root, blobs, stack);
        lemma_step_decreases(blobs, stack);
        let (blobs2, stack2) = walk_step(blobs, stack);
        let steps = lemma_walk_ends(origin, root, blobs2, stack2);
        steps + 1
    }
}

/// The recursive removal removes the whole subtree, and nothing else.
///
/// Take a store that holds `blobs`, no two with one id, among them a
/// directory `root`, and let the walk run from `root` against it, the store
/// keeping its contract. Then after `steps` steps the stack is empty, and
/// in what the store holds then:
/// - `root` does not resolve;
/// - no blob is left that was `root` or under it;
/// - no directory that was `root` or under it has a child;
/// - every blob that was not `root` nor under it is still there.
///
/// This holds of every such store: the blobs under `root` need not form a
/// tree, and a blob may be filed under several directories.
pub proof fn lemma_remove_dir_all_removes_subtree(blobs: Seq<Hit>, root: Hit) -> (steps: nat)
    requires
        distinct_ids(blobs),
        blobs.contains(root),
        root.meta.blob_type == BlobType::Directory,
    ensures
        ({
            let start = seq![DirEntryModel::Directory(DirModel { id: root.id@ })];
            let (left, stack) = walk_run(blobs, start, steps);
            &&& stack.len() == 0
            &&& !resolves(left, root.id@)
            &&& forall|hit: Hit| #[trigger] under(blobs, root.id@, hit) ==> !left.contains(hit)
            &&& forall|dir: Hit| #[trigger]
                under(blobs, root.id@, dir) && dir.meta.blob_type == BlobType::Directory
                    ==> children_of(left, dir.id@).len() == 0
            &&& forall|hit: Hit| #[trigger]
                blobs.contains(hit) && !under(blobs, root.id@, hit) ==> left.contains(hit)
        }),
{
    let id = root.id@;
    let start = seq![DirEntryModel::Directory(DirModel { id })];
    assert(in_subtree(blobs, id, root, 0));
    assert(entry_known(blobs, id, start[0]));
    assert forall|hit: Hit, depth: nat| #[trigger]
        in_subtree(blobs, id, hit, depth) && blobs.contains(hit) implies on_stack(start, hit.id@)
        || live_parent(blobs, id, blobs, hit, depth) by {
        if depth > 0 {
            let dir = lemma_subtree_up(blobs, id, hit, depth);
            assert(holds(dir, hit));
        }
    }
    let steps = lemma_walk_ends(blobs, id, blobs, start);
    let left = walk_run(blobs, start, steps).0;
    assert forall|hit: Hit| #[trigger] under(blobs, id, hit) implies !left.contains(hit) by {
        let depth = choose|depth: nat| in_subtree(blobs, id, hit, depth);
        lemma_empty_stack(blobs, id, left, hit, depth);
    }
    assert(!resolves(left, id)) by {
        if resolves(left, id) {
            let hit = choose|hit: Hit| #[trigger] left.contains(hit) && hit.id@ == id;
            assert(in_subtree(blobs, id, hit, 0));
        }
    }
    assert forall|dir: Hit| #[trigger]
        under(blobs, id, dir) && dir.meta.blob_type == BlobType::Directory implies children_of(
        left,
        dir.id@,
    ).len() == 0 by {
        let filed = filed_under(dir.id@);
        let depth = choose|depth: nat| in_subtree(blobs, id, dir, depth);
        assert forall|i: int| 0 <= i < left.len() implies !filed(#[trigger] left[i]) by {
            let kid = left[i];
            assert(left.contains(kid));
            if filed(kid) {
                lemma_subtree_down(blobs, id, dir, kid, depth);
                assert(under(blobs, id, kid));
            }
        }
        lemma_filter_none(left, filed);
    }
    steps
}

} // verus!
