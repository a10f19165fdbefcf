//! Metadata lookups and the scroll over a query's result.

use std::collections::VecDeque;
use vstd::prelude::*;

use crate::error::{FsError, Operation};
use crate::remote::{BlobMeta, Hit, Query, QueryModel, QueryResponse, Request, RequestModel};
use crate::store::page_hits;

verus! {

/// The request for the metadata of `blob_id`.
pub fn get_meta_request(blob_id: &str) -> (request: Request)
    ensures
        request@ == (RequestModel::GetMeta { id: blob_id@ }),
{
    Request::GetMeta { id: blob_id.to_owned() }
}

/// The store's answer to a metadata request for `blob_id`: the metadata, or
/// `None` where the blob does not exist. A failed call is reported as such.
pub fn get_meta_if_exists(blob_id: &str, reply: Result<Option<BlobMeta>, String>) -> (r: Result<
    Option<BlobMeta>,
    FsError,
>)
    ensures
        match reply {
            Ok(meta) => r == Ok::<Option<BlobMeta>, FsError>(meta),
            Err(cause) => r is Err && r->Err_0.is_remote_failure(
                Operation::GetMeta,
                Some(blob_id@),
                cause@,
            ),
        },
{
    match reply {
        Ok(meta) => Ok(meta),
        Err(cause) => Err(FsError::remote(Operation::GetMeta, Some(blob_id), cause)),
    }
}

/// The store's answer to a metadata request for `blob_id`, for a blob that
/// has to exist: `NotFound` where it does not.
pub fn get_meta(blob_id: &str, reply: Result<Option<BlobMeta>, String>) -> (r: Result<
    BlobMeta,
    FsError,
>)
    ensures
        match reply {
            Ok(Some(meta)) => r == Ok::<BlobMeta, FsError>(meta),
            Ok(None) => r == Err::<BlobMeta, FsError>(FsError::NotFound),
            Err(cause) => r is Err && r->Err_0.is_remote_failure(
                Operation::GetMeta,
                Some(blob_id@),
                cause@,
            ),
        },
{
    match get_meta_if_exists(blob_id, reply) {
        Ok(Some(meta)) => Ok(meta),
        Ok(None) => Err(FsError::NotFound),
        Err(e) => Err(e),
    }
}

/// What the scroll does next, as plain mathematical values.
pub enum ScrollStepModel {
    Yield { hit: Hit },
    Fetch { request: RequestModel },
    Done,
}

/// What the scroll does next.
#[derive(Debug, PartialEq, Eq)]
pub enum ScrollStep {
    /// The next hit of the result.
    Yield(Hit),
    /// The next page has to be fetched: send the request and hand the reply
    /// to `receive`.
    Fetch(Request),
    /// The result is exhausted.
    Done,
}

impl View for ScrollStep {
    type V = ScrollStepModel;

    open spec fn view(&self) -> ScrollStepModel {
        match *self {
            ScrollStep::Yield(hit) => ScrollStepModel::Yield { hit },
            ScrollStep::Fetch(request) => ScrollStepModel::Fetch { request: request@ },
            ScrollStep::Done => ScrollStepModel::Done,
        }
    }
}

/// The state of a scroll, as plain mathematical values.
pub struct ScrollModel {
    /// The blob whose children are asked for, if any.
    pub parent: Option<Seq<char>>,
    /// The position in the result at which the next page starts.
    pub from: u64,
    /// The length of a page.
    pub size: u64,
    /// The hits fetched and not yet yielded, next first.
    pub pending: Seq<Hit>,
    /// Whether the last page fetched reached the end of the result.
    pub page_end_reached: bool,
}

impl ScrollModel {
    /// The scroll before anything was fetched.
    pub open spec fn start(query: QueryModel) -> ScrollModel {
        ScrollModel {
            parent: query.parent,
            from: query.from,
            size: query.size,
            pending: Seq::empty(),
            page_end_reached: false,
        }
    }

    /// The query for the next page.
    pub open spec fn query(self) -> QueryModel {
        QueryModel { parent: self.parent, from: self.from, size: self.size }
    }

    /// One step: a pending hit is yielded first; without one the scroll is
    /// done if the end was reached, and asks for the next page if not.
    pub open spec fn next(self) -> (ScrollModel, ScrollStepModel) {
        if self.pending.len() > 0 {
            (
                ScrollModel { pending: self.pending.drop_first(), ..self },
                ScrollStepModel::Yield { hit: self.pending[0] },
            )
        } else if self.page_end_reached {
            (self, ScrollStepModel::Done)
        } else {
            (self, ScrollStepModel::Fetch { request: RequestModel::Query { query: self.query() } })
        }
    }

    /// Whether a page with this `count` and `total` contradicts the store's
    /// contract: it holds nothing although more is said to remain, or it
    /// claims more hits than positions can be counted.
    pub open spec fn page_violates(self, count: u64, total: u64) -> bool {
        (count == 0 && self.from < total) || self.from + count > u64::MAX
    }

    /// The scroll after a page of `hits` arrived that reports `count` hits of
    /// `total`: the hits go behind the pending ones, the position advances by
    /// `count`, and the end is reached once the position is at `total` or
    /// behind it.
    pub open spec fn received(self, hits: Seq<Hit>, count: u64, total: u64) -> ScrollModel {
        ScrollModel {
            pending: self.pending + hits,
            from: (self.from + count) as u64,
            page_end_reached: self.from + count >= total,
            ..self
        }
    }

    /// A bound on the pages that can still be accepted before the scroll has
    /// to be done, whatever the store answers.
    pub open spec fn fetch_budget(self) -> nat {
        (2 * (u64::MAX - self.from) + (if self.page_end_reached {
            0nat
        } else {
            1nat
        })) as nat
    }
}

/// A scroll over the result of a query: it turns the store's pages into one
/// sequence of hits, fetching a page only when the consumer has used up the
/// last one.
///
/// The store counts the result anew for each page. While blobs are added or
/// removed during the scroll, hits may be missed or come twice.
pub struct ScrollState {
    query: Query,
    pending: VecDeque<Hit>,
    page_end_reached: bool,
}

impl View for ScrollState {
    type V = ScrollModel;

    closed spec fn view(&self) -> ScrollModel {
        ScrollModel {
            parent: self.query@.parent,
            from: self.query.from,
            size: self.query.size,
            pending: self.pending@,
            page_end_reached: self.page_end_reached,
        }
    }
}

/// Starts a scroll over the result of `query`, at the position and with the
/// page length that `query` gives.
pub fn scroll_query(query: Query) -> (scroll: ScrollState)
    ensures
        scroll@ == ScrollModel::start(query@),
{
    ScrollState { query, pending: VecDeque::new(), page_end_reached: false }
}

impl ScrollState {
    /// Takes the next step of the scroll.
    pub fn next(&mut self) -> (step: ScrollStep)
        ensures
            (final(self)@, step@) == old(self)@.next(),
    {
        match self.pending.pop_front() {
            Some(hit) => {
                ScrollStep::Yield(hit)
            },
            None => {
                if self.page_end_reached {
                    ScrollStep::Done
                } else {
                    let parent = match &self.query.parent {
                        Some(p) => Some(p.clone()),
                        None => None,
                    };
                    ScrollStep::Fetch(
                        Request::Query {
                            query: Query { parent, from: self.query.from, size: self.query.size },
                        },
                    )
                }
            },
        }
    }

    /// Takes the store's reply to the request of a `Fetch` step.
    ///
    /// A failed call and a page that contradicts the store's contract are
    /// reported and leave the scroll as it was.
    pub fn receive(&mut self, reply: Result<QueryResponse, String>) -> (r: Result<(), FsError>)
        ensures
            match reply {
                Err(cause) => {
                    &&& r is Err
                    &&& r->Err_0.is_remote_failure(Operation::Query, old(self)@.parent, cause@)
                    &&& final(self)@ == old(self)@
                },
                Ok(page) => if old(self)@.page_violates(page.count, page.total) {
                    r == Err::<(), FsError>(FsError::ProtocolViolation) && final(self)@ == old(
                        self,
                    )@
                } else {
                    r is Ok && final(self)@ == old(self)@.received(
                        page.hits@,
                        page.count,
                        page.total,
                    )
                },
            },
    {
        match reply {
            Err(cause) => {
                let parent: Option<&str> = match &self.query.parent {
                    Some(p) => Some(p.as_str()),
                    None => None,
                };
                Err(FsError::remote(Operation::Query, parent, cause))
            },
            Ok(page) => {
                if page.count == 0 && self.query.from < page.total {
                    return Err(FsError::ProtocolViolation);
                }
                match self.query.from.checked_add(page.count) {
                    None => Err(FsError::ProtocolViolation),
                    Some(from) => {
                        let mut hits = page.hits;
                        let mut page_queue: VecDeque<Hit> = VecDeque::new();
                        while hits.len() > 0
                            invariant
                                hits@ + page_queue@ == page.hits@,
                            decreases hits.len(),
                        {
                            let ghost hits_before = hits@;
                            let ghost queue_before = page_queue@;
                            let hit = hits.pop().unwrap();
                            page_queue.push_front(hit);
                            assert(hits@ + page_queue@ =~= hits_before + queue_before) by {
                            }
                        }
                        self.pending.append(&mut page_queue);
                        self.query.from = from;
                        self.page_end_reached = from >= page.total;
                        Ok(())
                    },
                }
            },
        }
    }
}

/// What the scroll yields from the state `s` on, against a store in which the
/// query's result is `matches` and stays so: every step is taken, and every
/// page asked for is the page of `matches` at the position asked. `None`
/// where a page contradicts the store's contract.
pub open spec fn drain(s: ScrollModel, matches: Seq<Hit>) -> Option<Seq<Hit>>
    recommends
        matches.len() <= u64::MAX,
    decreases
            (if s.from <= matches.len() {
                matches.len() - s.from
            } else {
                0
            }),
            (if s.page_end_reached {
                0nat
            } else {
                1nat
            }),
            s.pending.len(),
    when matches.len() <= u64::MAX
{
    match s.next() {
        (after, ScrollStepModel::Yield { hit }) => match drain(after, matches) {
            Some(rest) => Some(seq![hit] + rest),
            None => None,
        },
        (_, ScrollStepModel::Done) => Some(Seq::empty()),
        (_, ScrollStepModel::Fetch { request }) => {
            let hits = page_hits(matches, request->query.from, request->query.size);
            let count = hits.len() as u64;
            let total = matches.len() as u64;
            if s.page_violates(count, total) {
                None
            } else {
                drain(s.received(hits, count, total), matches)
            }
        },
    }
}

/// Pagination is complete. Against a store in which the query's result is
/// `matches` and stays so, a scroll that starts at position 0 with a page
/// length of at least 1 yields exactly the hits of `matches`, each once and
/// in the store's order, and is then done. This holds however the length of
/// `matches` relates to the page length, for an empty result too.
pub proof fn lemma_scroll_yields_all(query: QueryModel, matches: Seq<Hit>)
    requires
        query.from == 0,
        query.size > 0 || matches.len() == 0,
        matches.len() <= u64::MAX,
    ensures
        drain(ScrollModel::start(query), matches) == Some(matches),
{
    lemma_drain_rest(ScrollModel::start(query), matches, 0);
}

/// From a state in which the hits before position `delivered` are yielded and
/// those from there to the scroll's position are pending, the scroll yields
/// the rest of `matches`.
proof fn lemma_drain_rest(s: ScrollModel, matches: Seq<Hit>, delivered: int)
    requires
        matches.len() <= u64::MAX,
        s.size > 0 || matches.len() == 0,
        0 <= delivered <= s.from <= matches.len(),
        s.pending =~= matches.subrange(delivered, s.from as int),
        s.page_end_reached ==> s.from == matches.len(),
    ensures
        drain(s, matches) == Some(matches.subrange(delivered, matches.len() as int)),
    decreases matches.len() - s.from, (if s.page_end_reached { 0nat } else { 1nat }), s.pending.len(),
{
    if s.pending.len() > 0 {
        lemma_drain_rest(s.next().0, matches, delivered + 1);
    } else if !s.page_end_reached {
        let hits = page_hits(matches, s.from, s.size);
        let after = s.received(hits, hits.len() as u64, matches.len() as u64);
        lemma_drain_rest(after, matches, delivered);
    }
}

/// A page length of 0 finds nothing: where the result is not empty, the
/// first page holds no hit although hits remain, and the scroll fails.
pub proof fn lemma_scroll_page_length_zero(query: QueryModel, matches: Seq<Hit>)
    requires
        query.from == 0,
        query.size == 0,
        0 < matches.len() <= u64::MAX,
    ensures
        drain(ScrollModel::start(query), matches) is None,
{
}

/// The scroll cannot go on for ever, whatever the store answers. A hit
/// yielded shortens the pending hits and leaves the budget of pages as it
/// was; a page accepted after a `Fetch` step lowers that budget. The position
/// never goes back.
pub proof fn lemma_scroll_progress(s: ScrollModel, hits: Seq<Hit>, count: u64, total: u64)
    ensures
        s.next().1 is Yield ==> s.next().0.pending.len() < s.pending.len()
            && s.next().0.fetch_budget() == s.fetch_budget(),
        s.next().1 is Fetch && !s.page_violates(count, total) ==> s.received(
            hits,
            count,
            total,
        ).fetch_budget() < s.fetch_budget(),
        !s.page_violates(count, total) ==> s.received(hits, count, total).from >= s.from,
{
}

} // verus!
