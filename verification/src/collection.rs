//! The following and bookmark subscription units: which Pixiv pages they
//! read, which works they process, how they count them, and when the
//! stored bookmarks are reconciled. The caller makes each Pixiv request,
//! processes each work and writes to storage, and reports the result as an
//! event.

use vstd::prelude::*;
use std::collections::HashSet;
use crate::domain::{DbError, JobErrorClass, PixivErrorClass};
use crate::following::FollowingServiceError;
use crate::imports::{first_occurrences, unique_work_ids};
use crate::jobs::{database_error_class, pixiv_error_class, spec_database_error_class, spec_pixiv_error_class};
use crate::pixiv_works::{PixivWorkProcessingError, ProcessedPixivWork};
use crate::subscriptions::{
    DiscoveryOutcome, discovery_outcome, discovery_selection, following_error_class, select_discovery_items,
    spec_discovery_outcome,
};

verus! {

broadcast use vstd::std_specs::hash::group_hash_axioms;

// ---------------------------------------------------------------------------
// Processing the discovered works.

/// What processing a unit's works adds up to.
#[derive(Clone, Copy, Debug, PartialEq, Eq, Structural)]
pub struct DiscoveryTotals {
    pub discovered: u64,
    pub ignored: u64,
    /// A work failed transiently and was left for the next full pass.
    pub retry_pending: bool,
}

/// The works of a unit processed one after another, as its view tells.
pub struct DiscoveryPassView {
    pub queue: Seq<i64>,
    pub next: int,
    pub continue_after_transient: bool,
    pub discovered: int,
    pub ignored: int,
    pub retry_pending: bool,
    pub done: bool,
    /// The works left out before the pass, counted as ignored.
    pub already_ignored: int,
}

impl DiscoveryPassView {
    /// Every work up to `next` was counted once, as discovered or ignored,
    /// on top of the works left out before the pass; the counts fit.
    pub open spec fn wf(self) -> bool {
        &&& 0 <= self.next <= self.queue.len()
        &&& !self.done ==> self.next < self.queue.len()
        &&& self.discovered >= 0
        &&& self.ignored >= 0
        &&& self.already_ignored >= 0
        &&& self.discovered + self.ignored == self.next + self.already_ignored
        &&& self.already_ignored + self.queue.len() <= u64::MAX
    }
}

/// The works of a unit processed one after another.
pub struct DiscoveryPass {
    queue: Vec<i64>,
    next: usize,
    continue_after_transient: bool,
    discovered: u64,
    ignored: u64,
    retry_pending: bool,
    done: bool,
    /// The count the pass started from (works left out before it).
    initial_ignored: u64,
}

impl View for DiscoveryPass {
    type V = DiscoveryPassView;

    closed spec fn view(&self) -> DiscoveryPassView {
        DiscoveryPassView {
            queue: self.queue@,
            next: self.next as int,
            continue_after_transient: self.continue_after_transient,
            discovered: self.discovered as int,
            ignored: self.ignored as int,
            retry_pending: self.retry_pending,
            done: self.done,
            already_ignored: self.initial_ignored as int,
        }
    }
}

/// What processing asks for next.
#[derive(Debug, PartialEq, Eq)]
pub enum DiscoveryAction {
    ProcessWork(i64),
    Finish(Result<DiscoveryTotals, JobErrorClass>),
}

pub open spec fn pass_totals(v: DiscoveryPassView) -> DiscoveryTotals {
    DiscoveryTotals { discovered: v.discovered as u64, ignored: v.ignored as u64, retry_pending: v.retry_pending }
}

pub open spec fn spec_start_pass(work_ids: Seq<i64>, continue_after_transient: bool, already_ignored: u64) -> (DiscoveryPassView, DiscoveryAction) {
    let queue = first_occurrences(work_ids);
    let v = DiscoveryPassView {
        queue,
        next: 0,
        continue_after_transient,
        discovered: 0,
        ignored: already_ignored as int,
        retry_pending: false,
        done: queue.len() == 0,
        already_ignored: already_ignored as int,
    };
    if queue.len() == 0 {
        (v, DiscoveryAction::Finish(Ok(pass_totals(v))))
    } else {
        (v, DiscoveryAction::ProcessWork(queue[0]))
    }
}

pub open spec fn pass_advance(v: DiscoveryPassView) -> (DiscoveryPassView, DiscoveryAction) {
    let moved = DiscoveryPassView { next: v.next + 1, ..v };
    if v.next + 1 < v.queue.len() {
        (moved, DiscoveryAction::ProcessWork(v.queue[v.next + 1]))
    } else {
        (DiscoveryPassView { done: true, ..moved }, DiscoveryAction::Finish(Ok(pass_totals(moved))))
    }
}

pub open spec fn spec_pass_step(v: DiscoveryPassView, result: Result<ProcessedPixivWork, PixivWorkProcessingError>) -> (DiscoveryPassView, DiscoveryAction) {
    if v.done {
        (v, DiscoveryAction::Finish(Err(JobErrorClass::Permanent)))
    } else {
        match spec_discovery_outcome(result, v.continue_after_transient) {
            DiscoveryOutcome::Discovered => pass_advance(DiscoveryPassView { discovered: v.discovered + 1, ..v }),
            DiscoveryOutcome::Ignored => pass_advance(DiscoveryPassView { ignored: v.ignored + 1, ..v }),
            DiscoveryOutcome::RetryLater => pass_advance(DiscoveryPassView { ignored: v.ignored + 1, retry_pending: true, ..v }),
            DiscoveryOutcome::Abort(class) => (DiscoveryPassView { done: true, ..v }, DiscoveryAction::Finish(Err(class))),
        }
    }
}

proof fn lemma_first_occurrences_len(s: Seq<i64>)
    ensures
        first_occurrences(s).len() <= s.len(),
    decreases s.len(),
{
    if s.len() > 0 {
        lemma_first_occurrences_len(s.drop_last());
    }
}

/// Starts processing the works of a unit: each work once, in the order
/// first listed, counted on top of `already_ignored` works left out
/// before (such as those of artists that are not enabled).
pub fn start_discovery_pass(work_ids: &Vec<i64>, continue_after_transient: bool, already_ignored: u64) -> (r: (DiscoveryPass, DiscoveryAction))
    requires
        already_ignored + work_ids@.len() <= u64::MAX,
    ensures
        r.0@ == spec_start_pass(work_ids@, continue_after_transient, already_ignored).0,
        r.1 == spec_start_pass(work_ids@, continue_after_transient, already_ignored).1,
        r.0@.wf(),
{
    proof {
        lemma_first_occurrences_len(work_ids@);
    }
    let queue = unique_work_ids(work_ids);
    let done = queue.len() == 0;
    let pass = DiscoveryPass {
        queue,
        next: 0,
        continue_after_transient,
        discovered: 0,
        ignored: already_ignored,
        retry_pending: false,
        done,
        initial_ignored: already_ignored,
    };
    if done {
        let totals = DiscoveryTotals { discovered: 0, ignored: already_ignored, retry_pending: false };
        (pass, DiscoveryAction::Finish(Ok(totals)))
    } else {
        let first = pass.queue[0];
        (pass, DiscoveryAction::ProcessWork(first))
    }
}

fn pass_advance_exec(p: DiscoveryPass) -> (r: (DiscoveryPass, DiscoveryAction))
    requires
        !p.done,
        p.next < p.queue@.len(),
        p.discovered + p.ignored == p.next + 1 + p.initial_ignored,
        p.initial_ignored + p.queue@.len() <= u64::MAX,
    ensures
        r.0@ == pass_advance(p@).0,
        r.1 == pass_advance(p@).1,
        r.0@.wf(),
{
    let mut p = p;
    let len = p.queue.len();
    p.next = p.next + 1;
    if p.next < len {
        let work = p.queue[p.next];
        (p, DiscoveryAction::ProcessWork(work))
    } else {
        p.done = true;
        let totals = DiscoveryTotals { discovered: p.discovered, ignored: p.ignored, retry_pending: p.retry_pending };
        (p, DiscoveryAction::Finish(Ok(totals)))
    }
}

/// One decision of processing a unit's works: a saved work counts as
/// discovered; an ignored or blocked one, or one Pixiv refuses for good, as
/// ignored; a transient failure, where the unit allows it, as ignored and
/// left for the next full pass; any other failure ends the unit with its
/// class. After the last work the totals are reported.
pub fn discovery_pass_step(p: DiscoveryPass, result: Result<ProcessedPixivWork, PixivWorkProcessingError>) -> (r: (DiscoveryPass, DiscoveryAction))
    requires
        p@.wf(),
    ensures
        r.0@ == spec_pass_step(p@, result).0,
        r.1 == spec_pass_step(p@, result).1,
        r.0@.wf(),
{
    if p.done {
        return (p, DiscoveryAction::Finish(Err(JobErrorClass::Permanent)));
    }
    match discovery_outcome(&result, p.continue_after_transient) {
        DiscoveryOutcome::Discovered => {
            let mut p = p;
            p.discovered = p.discovered + 1;
            pass_advance_exec(p)
        },
        DiscoveryOutcome::Ignored => {
            let mut p = p;
            p.ignored = p.ignored + 1;
            pass_advance_exec(p)
        },
        DiscoveryOutcome::RetryLater => {
            let mut p = p;
            p.ignored = p.ignored + 1;
            p.retry_pending = true;
            pass_advance_exec(p)
        },
        DiscoveryOutcome::Abort(class) => {
            let mut p = p;
            p.done = true;
            (p, DiscoveryAction::Finish(Err(class)))
        },
    }
}

/// Every work of the pass is counted exactly once: each step processes the
/// next work of the queue (the works in the order first listed, each once),
/// and a pass that finishes reports as many discovered and ignored works as
/// it processed, plus those left out before it.
pub proof fn lemma_pass_counts_each_work_once(v: DiscoveryPassView, result: Result<ProcessedPixivWork, PixivWorkProcessingError>)
    requires
        v.wf(),
    ensures
        ({
            let (n, a) = spec_pass_step(v, result);
            &&& n.wf()
            &&& (a matches DiscoveryAction::ProcessWork(w) ==> !v.done && w == v.queue[v.next + 1] && n.next == v.next + 1)
            &&& (a matches DiscoveryAction::Finish(Ok(t)) ==> !v.done && n.next == v.queue.len()
                && t.discovered + t.ignored == v.queue.len() + v.already_ignored)
        }),
{
}


// ---------------------------------------------------------------------------
// The bookmark unit.

/// Which of the account's bookmark lists a page belongs to.
#[derive(Clone, Copy, Debug, PartialEq, Eq, Structural)]
pub enum BookmarkVisibility {
    Public,
    Private,
}

/// Where a bookmark unit stands.
#[derive(Clone, Copy, Debug, PartialEq, Eq, Structural)]
pub enum BookmarksPhase {
    /// Pages of the list of this visibility are read; `pages` were read.
    Reading { visibility: BookmarkVisibility, pages: u32 },
    /// The listed works are being processed.
    Processing,
    /// The stored bookmarks are being reconciled with what Pixiv listed.
    Reconciling { totals: DiscoveryTotals },
    Finished,
}

/// A bookmark unit, as its view tells.
pub struct BookmarksUnitView {
    /// The unit reads every page and reconciles (a backfill, or a full pass
    /// that is due).
    pub full: bool,
    /// The pages per list that an incremental pass reads.
    pub incremental_pages: u32,
    pub phase: BookmarksPhase,
    /// Every listed bookmark, with its list, in the order read.
    pub entries: Seq<(i64, BookmarkVisibility)>,
    /// Every listed work id, in the order read.
    pub work_ids: Seq<i64>,
}

/// A bookmark unit.
pub struct BookmarksUnit {
    full: bool,
    incremental_pages: u32,
    phase: BookmarksPhase,
    entries: Vec<(i64, BookmarkVisibility)>,
    work_ids: Vec<i64>,
}

impl View for BookmarksUnit {
    type V = BookmarksUnitView;

    closed spec fn view(&self) -> BookmarksUnitView {
        BookmarksUnitView {
            full: self.full,
            incremental_pages: self.incremental_pages,
            phase: self.phase,
            entries: self.entries@,
            work_ids: self.work_ids@,
        }
    }
}

impl BookmarksUnitView {
    /// An incremental pass reads at least one page per list and stops at its
    /// budget.
    pub open spec fn wf(self) -> bool {
        &&& self.incremental_pages >= 1
        &&& (self.phase matches BookmarksPhase::Reading { pages, .. } ==> (!self.full ==> pages < self.incremental_pages))
    }
}

/// What a bookmark unit reports.
#[derive(Clone, Copy, Debug, PartialEq, Eq, Structural)]
pub struct BookmarksUnitResult {
    pub discovered: u64,
    pub ignored: u64,
    /// The stored bookmarks were reconciled in full.
    pub full_reconcile: bool,
    pub retry_pending: bool,
}

/// What a bookmark unit asks for next.
#[derive(Debug, PartialEq, Eq)]
pub enum BookmarksAction {
    /// Read the page of this list that starts at `offset`.
    FetchPage { visibility: BookmarkVisibility, offset: u64 },
    /// Process `work_ids()`, forced past the rules, with a pass that leaves
    /// transient failures for the next full pass:
    /// `start_discovery_pass(work_ids, true, 0)`.
    ProcessWorks,
    /// Reconcile the stored bookmarks with `reconcile_entries()`.
    Reconcile,
    Finish(Result<BookmarksUnitResult, JobErrorClass>),
}

/// What the last request reported.
#[derive(Debug, PartialEq, Eq)]
pub enum BookmarksEvent {
    /// A page of work ids, and the offset of the next page when there is one.
    PageFetched { items: Vec<i64>, next_offset: Option<u64> },
    PageFailed(PixivErrorClass),
    WorksProcessed(Result<DiscoveryTotals, JobErrorClass>),
    Reconciled,
    ReconcileFailed(DbError),
}

pub open spec fn bookmarks_result(t: DiscoveryTotals, full: bool) -> BookmarksUnitResult {
    BookmarksUnitResult {
        discovered: t.discovered,
        ignored: t.ignored,
        full_reconcile: full && !t.retry_pending,
        retry_pending: t.retry_pending,
    }
}

pub open spec fn tagged(items: Seq<i64>, visibility: BookmarkVisibility) -> Seq<(i64, BookmarkVisibility)> {
    Seq::new(items.len(), |i: int| (items[i], visibility))
}

pub open spec fn bookmarks_finish(v: BookmarksUnitView, r: Result<BookmarksUnitResult, JobErrorClass>) -> (BookmarksUnitView, BookmarksAction) {
    (BookmarksUnitView { phase: BookmarksPhase::Finished, ..v }, BookmarksAction::Finish(r))
}

/// After a list: the private list follows the public one; after both, the
/// works are processed.
pub open spec fn bookmarks_next_list(v: BookmarksUnitView, visibility: BookmarkVisibility) -> (BookmarksUnitView, BookmarksAction) {
    match visibility {
        BookmarkVisibility::Public => (
            BookmarksUnitView { phase: BookmarksPhase::Reading { visibility: BookmarkVisibility::Private, pages: 0 }, ..v },
            BookmarksAction::FetchPage { visibility: BookmarkVisibility::Private, offset: 0 },
        ),
        BookmarkVisibility::Private => (BookmarksUnitView { phase: BookmarksPhase::Processing, ..v }, BookmarksAction::ProcessWorks),
    }
}

pub open spec fn spec_start_bookmarks(full: bool, lookback_pages: u32) -> (BookmarksUnitView, BookmarksAction) {
    (
        BookmarksUnitView {
            full,
            incremental_pages: if lookback_pages >= 1 { lookback_pages } else { 1 },
            phase: BookmarksPhase::Reading { visibility: BookmarkVisibility::Public, pages: 0 },
            entries: Seq::empty(),
            work_ids: Seq::empty(),
        },
        BookmarksAction::FetchPage { visibility: BookmarkVisibility::Public, offset: 0 },
    )
}

pub open spec fn spec_bookmarks_step(v: BookmarksUnitView, e: BookmarksEvent) -> (BookmarksUnitView, BookmarksAction) {
    match (v.phase, e) {
        (BookmarksPhase::Reading { visibility, pages }, BookmarksEvent::PageFetched { items, next_offset }) => {
            let read = BookmarksUnitView {
                entries: v.entries + tagged(items@, visibility),
                work_ids: v.work_ids + items@,
                ..v
            };
            let count = (pages + 1) as u32;
            if !v.full && count >= v.incremental_pages {
                bookmarks_next_list(read, visibility)
            } else {
                match next_offset {
                    None => bookmarks_next_list(read, visibility),
                    Some(offset) => (
                        BookmarksUnitView { phase: BookmarksPhase::Reading { visibility, pages: count }, ..read },
                        BookmarksAction::FetchPage { visibility, offset },
                    ),
                }
            }
        },
        (BookmarksPhase::Reading { .. }, BookmarksEvent::PageFailed(class)) => bookmarks_finish(v, Err(spec_pixiv_error_class(class))),
        (BookmarksPhase::Processing, BookmarksEvent::WorksProcessed(Ok(t))) => if v.full && !t.retry_pending {
            (BookmarksUnitView { phase: BookmarksPhase::Reconciling { totals: t }, ..v }, BookmarksAction::Reconcile)
        } else {
            bookmarks_finish(v, Ok(bookmarks_result(t, v.full)))
        },
        (BookmarksPhase::Processing, BookmarksEvent::WorksProcessed(Err(class))) => bookmarks_finish(v, Err(class)),
        (BookmarksPhase::Reconciling { totals }, BookmarksEvent::Reconciled) => bookmarks_finish(v, Ok(bookmarks_result(totals, v.full))),
        (BookmarksPhase::Reconciling { .. }, BookmarksEvent::ReconcileFailed(error)) =>
            bookmarks_finish(v, Err(spec_database_error_class(error))),
        _ => bookmarks_finish(v, Err(JobErrorClass::Permanent)),
    }
}

/// The first request of a bookmark unit: the first page of the public
/// list. An incremental pass reads `lookback_pages` pages per list, at
/// least one.
pub fn start_bookmarks_unit(full: bool, lookback_pages: u32) -> (r: (BookmarksUnit, BookmarksAction))
    ensures
        r.0@ == spec_start_bookmarks(full, lookback_pages).0,
        r.1 == spec_start_bookmarks(full, lookback_pages).1,
        r.0@.wf(),
{
    let unit = BookmarksUnit {
        full,
        incremental_pages: if lookback_pages >= 1 { lookback_pages } else { 1 },
        phase: BookmarksPhase::Reading { visibility: BookmarkVisibility::Public, pages: 0 },
        entries: Vec::new(),
        work_ids: Vec::new(),
    };
    proof {
        assert(unit@.entries =~= Seq::<(i64, BookmarkVisibility)>::empty());
        assert(unit@.work_ids =~= Seq::<i64>::empty());
    }
    (unit, BookmarksAction::FetchPage { visibility: BookmarkVisibility::Public, offset: 0 })
}

fn bookmarks_next_list_exec(u: BookmarksUnit, visibility: BookmarkVisibility) -> (r: (BookmarksUnit, BookmarksAction))
    requires
        u@.incremental_pages >= 1,
    ensures
        r.0@ == bookmarks_next_list(u@, visibility).0,
        r.1 == bookmarks_next_list(u@, visibility).1,
        r.0@.wf(),
{
    let mut u = u;
    match visibility {
        BookmarkVisibility::Public => {
            u.phase = BookmarksPhase::Reading { visibility: BookmarkVisibility::Private, pages: 0 };
            (u, BookmarksAction::FetchPage { visibility: BookmarkVisibility::Private, offset: 0 })
        },
        BookmarkVisibility::Private => {
            u.phase = BookmarksPhase::Processing;
            (u, BookmarksAction::ProcessWorks)
        },
    }
}

fn bookmarks_finish_exec(u: BookmarksUnit, r: Result<BookmarksUnitResult, JobErrorClass>) -> (next: (BookmarksUnit, BookmarksAction))
    requires
        u@.incremental_pages >= 1,
    ensures
        next.0@ == bookmarks_finish(u@, r).0,
        next.1 == bookmarks_finish(u@, r).1,
        next.0@.wf(),
{
    let mut u = u;
    u.phase = BookmarksPhase::Finished;
    (u, BookmarksAction::Finish(r))
}

/// One decision of a bookmark unit. The public list is read before the
/// private one, page by page: an incremental pass stops each list after its
/// page budget, a full pass follows each list to its end. Then the listed
/// works are processed; the stored bookmarks are reconciled with every
/// listed one only after a full pass that left no work for a later retry.
/// A failed page or storage call ends the unit with its class.
pub fn bookmarks_step(u: BookmarksUnit, e: BookmarksEvent) -> (r: (BookmarksUnit, BookmarksAction))
    requires
        u@.wf(),
        !(u@.phase matches BookmarksPhase::Reading { pages, .. } && pages == u32::MAX),
    ensures
        r.0@ == spec_bookmarks_step(u@, e).0,
        r.1 == spec_bookmarks_step(u@, e).1,
        r.0@.wf(),
{
    match (u.phase, e) {
        (BookmarksPhase::Reading { visibility, pages }, BookmarksEvent::PageFetched { items, next_offset }) => {
            let mut u = u;
            let ghost before = u@;
            let mut i: usize = 0;
            while i < items.len()
                invariant
                    i <= items@.len(),
                    u.entries@ == before.entries + tagged(items@, visibility).take(i as int),
                    u.work_ids@ == before.work_ids + items@.take(i as int),
                    u.full == before.full,
                    u.incremental_pages == before.incremental_pages,
                    u.phase == before.phase,
                decreases items.len() - i,
            {
                proof {
                    assert(tagged(items@, visibility).take(i as int + 1) =~= tagged(items@, visibility).take(i as int).push((items@[i as int], visibility)));
                    assert(items@.take(i as int + 1) =~= items@.take(i as int).push(items@[i as int]));
                }
                u.entries.push((items[i], visibility));
                u.work_ids.push(items[i]);
                i = i + 1;
            }
            proof {
                assert(tagged(items@, visibility).take(items@.len() as int) =~= tagged(items@, visibility));
                assert(items@.take(items@.len() as int) =~= items@);
            }
            let count: u32 = pages + 1;
            if !u.full && count >= u.incremental_pages {
                bookmarks_next_list_exec(u, visibility)
            } else {
                match next_offset {
                    None => bookmarks_next_list_exec(u, visibility),
                    Some(offset) => {
                        u.phase = BookmarksPhase::Reading { visibility, pages: count };
                        (u, BookmarksAction::FetchPage { visibility, offset })
                    },
                }
            }
        },
        (BookmarksPhase::Reading { .. }, BookmarksEvent::PageFailed(class)) => bookmarks_finish_exec(u, Err(pixiv_error_class(class))),
        (BookmarksPhase::Processing, BookmarksEvent::WorksProcessed(Ok(t))) => if u.full && !t.retry_pending {
            let mut u = u;
            u.phase = BookmarksPhase::Reconciling { totals: t };
            (u, BookmarksAction::Reconcile)
        } else {
            let full = u.full;
            bookmarks_finish_exec(u, Ok(BookmarksUnitResult {
                discovered: t.discovered,
                ignored: t.ignored,
                full_reconcile: full && !t.retry_pending,
                retry_pending: t.retry_pending,
            }))
        },
        (BookmarksPhase::Processing, BookmarksEvent::WorksProcessed(Err(class))) => bookmarks_finish_exec(u, Err(class)),
        (BookmarksPhase::Reconciling { totals }, BookmarksEvent::Reconciled) => {
            let full = u.full;
            bookmarks_finish_exec(u, Ok(BookmarksUnitResult {
                discovered: totals.discovered,
                ignored: totals.ignored,
                full_reconcile: full && !totals.retry_pending,
                retry_pending: totals.retry_pending,
            }))
        },
        (BookmarksPhase::Reconciling { .. }, BookmarksEvent::ReconcileFailed(error)) =>
            bookmarks_finish_exec(u, Err(database_error_class(&error))),
        _ => bookmarks_finish_exec(u, Err(JobErrorClass::Permanent)),
    }
}

/// std `slice::sort_by_key` with the work id as key: the same entries,
/// ordered by work id (the sort is stable, which is not stated).
#[verifier::external_body]
fn sort_by_work_id(entries: &mut Vec<(i64, BookmarkVisibility)>)
    ensures
        final(entries)@.to_multiset() == old(entries)@.to_multiset(),
        forall|i: int, j: int| 0 <= i <= j < final(entries)@.len() ==> #[trigger] final(entries)@[i].0 <= #[trigger] final(entries)@[j].0,
{
    entries.sort_by_key(|entry| entry.0);
}

impl BookmarksUnit {
    /// The listed work ids, in the order read, to process.
    pub fn work_ids(&self) -> (ids: &Vec<i64>)
        ensures
            ids@ == self@.work_ids,
    {
        &self.work_ids
    }

    /// Every listed bookmark with its list, ordered by work id, to
    /// reconcile the stored bookmarks with.
    pub fn reconcile_entries(&self) -> (entries: Vec<(i64, BookmarkVisibility)>)
        ensures
            entries@.to_multiset() == self@.entries.to_multiset(),
            forall|i: int, j: int| 0 <= i <= j < entries@.len() ==> #[trigger] entries@[i].0 <= #[trigger] entries@[j].0,
    {
        let mut copy: Vec<(i64, BookmarkVisibility)> = Vec::new();
        let mut i: usize = 0;
        while i < self.entries.len()
            invariant
                i <= self.entries@.len(),
                copy@ == self.entries@.take(i as int),
            decreases self.entries.len() - i,
        {
            proof {
                assert(self.entries@.take(i as int + 1) =~= self.entries@.take(i as int).push(self.entries@[i as int]));
            }
            copy.push(self.entries[i]);
            i = i + 1;
        }
        proof {
            assert(self.entries@.take(self.entries@.len() as int) =~= self.entries@);
        }
        sort_by_work_id(&mut copy);
        copy
    }
}

/// The bookmark unit's laws: the private list is read only after the public
/// one ended; an incremental pass reads no more than its budget of pages per
/// list; each page adds its works, in order, to those to process; the
/// stored bookmarks are reconciled only after a full pass that left no work
/// for a later retry; and the unit reports the processed totals.
pub proof fn lemma_bookmarks_unit(v: BookmarksUnitView, e: BookmarksEvent)
    requires
        v.wf(),
    ensures
        (spec_bookmarks_step(v, e).1 matches BookmarksAction::FetchPage { visibility: BookmarkVisibility::Public, .. })
            ==> (v.phase matches BookmarksPhase::Reading { visibility: BookmarkVisibility::Public, .. }),
        (spec_bookmarks_step(v, e).0.phase matches BookmarksPhase::Reading { visibility: BookmarkVisibility::Private, .. })
            ==> (v.phase is Reading),
        spec_bookmarks_step(v, e).0.phase matches BookmarksPhase::Reading { pages, .. }
            ==> (!v.full ==> pages < v.incremental_pages),
        (v.phase is Reading && e is PageFetched) ==> spec_bookmarks_step(v, e).0.work_ids == v.work_ids + e->items@,
        (spec_bookmarks_step(v, e).1 is Reconcile)
            ==> (v.full && (e matches BookmarksEvent::WorksProcessed(Ok(t)) && !t.retry_pending)),
        spec_bookmarks_step(v, e).1 matches BookmarksAction::Finish(Ok(r))
            ==> ((r.full_reconcile ==> v.phase is Reconciling) && (r.full_reconcile <==> (v.full && !r.retry_pending))),
        (spec_bookmarks_step(v, e).1 is ProcessWorks)
            ==> (v.phase matches BookmarksPhase::Reading { visibility: BookmarkVisibility::Private, .. }),
{
}

// ---------------------------------------------------------------------------
// The following unit.

/// Where a following unit stands.
#[derive(Clone, Copy, Debug, PartialEq, Eq, Structural)]
pub enum FollowingPhase {
    /// The followed artists are being refreshed from Pixiv.
    Refreshing,
    /// Page `page` of new works from followed artists was asked for.
    Reading { page: u32 },
    Processing,
    /// The enabled artists are being marked as collected.
    Marking { totals: DiscoveryTotals },
    Finished,
}

/// A following unit, as its view tells.
pub struct FollowingUnitView {
    /// The pages an incremental pass reads (`None` for a backfill).
    pub page_limit: Option<u32>,
    pub phase: FollowingPhase,
    /// The artists whose works are collected.
    pub enabled: Set<i64>,
    /// Every listed work with its artist, in the order read.
    pub items: Seq<(i64, i64)>,
    /// The works to process: each listed work once, of an enabled artist.
    pub work_ids: Seq<i64>,
    /// The listed works left out because their artist is not enabled.
    pub filtered: nat,
}

/// A following unit.
pub struct FollowingUnit {
    page_limit: Option<u32>,
    phase: FollowingPhase,
    enabled: HashSet<i64>,
    items: Vec<(i64, i64)>,
    work_ids: Vec<i64>,
    filtered: u64,
}

impl View for FollowingUnit {
    type V = FollowingUnitView;

    closed spec fn view(&self) -> FollowingUnitView {
        FollowingUnitView {
            page_limit: self.page_limit,
            phase: self.phase,
            enabled: self.enabled@,
            items: self.items@,
            work_ids: self.work_ids@,
            filtered: self.filtered as nat,
        }
    }
}

impl FollowingUnitView {
    /// The works to process and those left out fit the counters.
    pub open spec fn wf(self) -> bool {
        &&& self.filtered + self.work_ids.len() <= u64::MAX
        &&& (self.phase is Reading || self.phase is Processing || self.phase is Marking) ==> self.enabled.len() > 0
    }
}

/// What a following unit asks for next.
#[derive(Debug, PartialEq, Eq)]
pub enum FollowingAction {
    RefreshAuthors,
    /// Read this page of new works from followed artists.
    FetchPage { page: u32 },
    /// Process `work_ids()`, forced past the rules, counting the `filtered`
    /// works left out as ignored: `start_discovery_pass(work_ids, false,
    /// filtered)`.
    ProcessWorks { filtered: u64 },
    /// Mark the enabled artists as collected now.
    MarkCollected,
    Finish(Result<DiscoveryTotals, JobErrorClass>),
}

/// What the last request reported.
#[derive(Debug, PartialEq, Eq)]
pub enum FollowingEvent {
    /// The followed artists, each with whether it is enabled.
    AuthorsRefreshed(Vec<(i64, bool)>),
    RefreshFailed(FollowingServiceError),
    /// A page of works with their artists, and the next page when there is one.
    PageFetched { items: Vec<(i64, i64)>, next_page: Option<u32> },
    PageFailed(PixivErrorClass),
    WorksProcessed(Result<DiscoveryTotals, JobErrorClass>),
    Marked,
    MarkFailed(DbError),
}

/// The enabled artists among these.
pub open spec fn enabled_artists(authors: Seq<(i64, bool)>) -> Set<i64> {
    Set::new(|a: i64| exists|i: int| 0 <= i < authors.len() && #[trigger] authors[i] == (a, true))
}

pub open spec fn following_finish(v: FollowingUnitView, r: Result<DiscoveryTotals, JobErrorClass>) -> (FollowingUnitView, FollowingAction) {
    (FollowingUnitView { phase: FollowingPhase::Finished, ..v }, FollowingAction::Finish(r))
}

pub open spec fn spec_start_following(backfill: bool, lookback_pages: u32) -> (FollowingUnitView, FollowingAction) {
    (
        FollowingUnitView {
            page_limit: if backfill { None } else { Some(if lookback_pages == u32::MAX { u32::MAX } else { (lookback_pages + 1) as u32 }) },
            phase: FollowingPhase::Refreshing,
            enabled: Set::empty(),
            items: Seq::empty(),
            work_ids: Seq::empty(),
            filtered: 0,
        },
        FollowingAction::RefreshAuthors,
    )
}

pub open spec fn spec_following_step(v: FollowingUnitView, e: FollowingEvent) -> (FollowingUnitView, FollowingAction) {
    match (v.phase, e) {
        (FollowingPhase::Refreshing, FollowingEvent::AuthorsRefreshed(authors)) => {
            let enabled = enabled_artists(authors@);
            if enabled.len() == 0 {
                following_finish(
                    FollowingUnitView { enabled, ..v },
                    Ok(DiscoveryTotals { discovered: 0, ignored: 0, retry_pending: false }),
                )
            } else {
                (FollowingUnitView { enabled, phase: FollowingPhase::Reading { page: 1 }, ..v }, FollowingAction::FetchPage { page: 1 })
            }
        },
        (FollowingPhase::Refreshing, FollowingEvent::RefreshFailed(error)) => following_finish(v, Err(match error {
            FollowingServiceError::Storage(db) => spec_database_error_class(db),
            FollowingServiceError::Pixiv(p) => spec_pixiv_error_class(p),
        })),
        (FollowingPhase::Reading { page }, FollowingEvent::PageFetched { items, next_page }) => {
            let all = v.items + items@;
            let read = FollowingUnitView { items: all, ..v };
            let (kept, filtered, _) = discovery_selection(all, Some(v.enabled));
            if (v.page_limit matches Some(l) && page >= l) || next_page is None {
                (
                    FollowingUnitView { phase: FollowingPhase::Processing, work_ids: kept, filtered, ..read },
                    FollowingAction::ProcessWorks { filtered: filtered as u64 },
                )
            } else if next_page->0 <= page {
                following_finish(read, Err(JobErrorClass::Permanent))
            } else {
                (FollowingUnitView { phase: FollowingPhase::Reading { page: next_page->0 }, ..read }, FollowingAction::FetchPage { page: next_page->0 })
            }
        },
        (FollowingPhase::Reading { .. }, FollowingEvent::PageFailed(class)) => following_finish(v, Err(spec_pixiv_error_class(class))),
        (FollowingPhase::Processing, FollowingEvent::WorksProcessed(Ok(t))) =>
            (FollowingUnitView { phase: FollowingPhase::Marking { totals: t }, ..v }, FollowingAction::MarkCollected),
        (FollowingPhase::Processing, FollowingEvent::WorksProcessed(Err(class))) => following_finish(v, Err(class)),
        (FollowingPhase::Marking { totals }, FollowingEvent::Marked) => following_finish(v, Ok(totals)),
        (FollowingPhase::Marking { .. }, FollowingEvent::MarkFailed(error)) => following_finish(v, Err(spec_database_error_class(error))),
        _ => following_finish(v, Err(JobErrorClass::Permanent)),
    }
}

/// The first request of a following unit: refresh the followed artists. An
/// incremental pass reads `lookback_pages + 1` pages (saturating), a
/// backfill every page.
pub fn start_following_unit(backfill: bool, lookback_pages: u32) -> (r: (FollowingUnit, FollowingAction))
    ensures
        r.0@ == spec_start_following(backfill, lookback_pages).0,
        r.1 == spec_start_following(backfill, lookback_pages).1,
        r.0@.wf(),
{
    let unit = FollowingUnit {
        page_limit: if backfill { None } else { Some(lookback_pages.saturating_add(1)) },
        phase: FollowingPhase::Refreshing,
        enabled: HashSet::new(),
        items: Vec::new(),
        work_ids: Vec::new(),
        filtered: 0,
    };
    proof {
        assert(unit@.items =~= Seq::<(i64, i64)>::empty());
        assert(unit@.work_ids =~= Seq::<i64>::empty());
    }
    (unit, FollowingAction::RefreshAuthors)
}

fn following_finish_exec(u: FollowingUnit, r: Result<DiscoveryTotals, JobErrorClass>) -> (next: (FollowingUnit, FollowingAction))
    requires
        u@.wf(),
    ensures
        next.0@ == following_finish(u@, r).0,
        next.1 == following_finish(u@, r).1,
        next.0@.wf(),
{
    let mut u = u;
    u.phase = FollowingPhase::Finished;
    (u, FollowingAction::Finish(r))
}

proof fn lemma_selection_counts(items: Seq<(i64, i64)>, enabled: Option<Set<i64>>)
    ensures
        discovery_selection(items, enabled).0.len() + discovery_selection(items, enabled).1 <= items.len(),
    decreases items.len(),
{
    if items.len() > 0 {
        lemma_selection_counts(items.drop_last(), enabled);
    }
}

/// One decision of a following unit. The followed artists are refreshed
/// first; without an enabled one there is nothing to collect. Pages of new
/// works follow one another up to the page limit of an incremental pass,
/// and a next page must lie beyond the current one. The listed works are
/// then processed, each once and only for enabled artists (the others
/// counted as ignored), and the enabled artists marked as collected.
pub fn following_step(u: FollowingUnit, e: FollowingEvent) -> (r: (FollowingUnit, FollowingAction))
    requires
        u@.wf(),
    ensures
        r.0@ == spec_following_step(u@, e).0,
        r.1 == spec_following_step(u@, e).1,
        r.0@.wf(),
{
    match (u.phase, e) {
        (FollowingPhase::Refreshing, FollowingEvent::AuthorsRefreshed(authors)) => {
            let mut u = u;
            let mut enabled: HashSet<i64> = HashSet::new();
            let mut i: usize = 0;
            while i < authors.len()
                invariant
                    i <= authors@.len(),
                    forall|a: i64| enabled@.contains(a) <==> exists|k: int| 0 <= k < i && #[trigger] authors@[k] == (a, true),
                decreases authors.len() - i,
            {
                let (artist, on) = authors[i];
                if on {
                    enabled.insert(artist);
                }
                proof {
                    assert forall|a: i64| enabled@.contains(a) <==> exists|k: int| 0 <= k < i + 1 && #[trigger] authors@[k] == (a, true) by {
                        if enabled@.contains(a) && !(on && a == artist) {
                            let k = choose|k: int| 0 <= k < i && #[trigger] authors@[k] == (a, true);
                        }
                        if exists|k: int| 0 <= k < i + 1 && #[trigger] authors@[k] == (a, true) {
                            let k = choose|k: int| 0 <= k < i + 1 && #[trigger] authors@[k] == (a, true);
                            if k == i {
                                assert(authors@[i as int] == (artist, on));
                            }
                        }
                    }
                }
                i = i + 1;
            }
            proof {
                assert(enabled@ =~= enabled_artists(authors@));
            }
            let none = enabled.len() == 0;
            u.enabled = enabled;
            if none {
                following_finish_exec(u, Ok(DiscoveryTotals { discovered: 0, ignored: 0, retry_pending: false }))
            } else {
                u.phase = FollowingPhase::Reading { page: 1 };
                (u, FollowingAction::FetchPage { page: 1 })
            }
        },
        (FollowingPhase::Refreshing, FollowingEvent::RefreshFailed(error)) => {
            let class = following_error_class(&error);
            following_finish_exec(u, Err(class))
        },
        (FollowingPhase::Reading { page }, FollowingEvent::PageFetched { items, next_page }) => {
            let mut u = u;
            let ghost before = u@;
            let mut i: usize = 0;
            while i < items.len()
                invariant
                    i <= items@.len(),
                    u.items@ == before.items + items@.take(i as int),
                    u@.wf(),
                    u.page_limit == before.page_limit,
                    u.phase == before.phase,
                    u.enabled@ == before.enabled,
                    u.work_ids@ == before.work_ids,
                    u.filtered == before.filtered,
                decreases items.len() - i,
            {
                proof {
                    assert(items@.take(i as int + 1) =~= items@.take(i as int).push(items@[i as int]));
                }
                u.items.push(items[i]);
                i = i + 1;
            }
            proof {
                assert(items@.take(items@.len() as int) =~= items@);
            }
            let stop = match u.page_limit {
                Some(l) => page >= l,
                None => false,
            };
            if stop || next_page.is_none() {
                let count = u.items.len();
                proof {
                    lemma_selection_counts(u.items@, Some(u.enabled@));
                    assert(count <= u64::MAX);
                }
                let (kept, filtered) = select_discovery_items(&u.items, Some(&u.enabled));
                u.work_ids = kept;
                u.filtered = filtered;
                u.phase = FollowingPhase::Processing;
                (u, FollowingAction::ProcessWorks { filtered })
            } else {
                let n = match next_page {
                    Some(n) => n,
                    None => page,
                };
                if n <= page {
                    following_finish_exec(u, Err(JobErrorClass::Permanent))
                } else {
                    u.phase = FollowingPhase::Reading { page: n };
                    (u, FollowingAction::FetchPage { page: n })
                }
            }
        },
        (FollowingPhase::Reading { .. }, FollowingEvent::PageFailed(class)) => following_finish_exec(u, Err(pixiv_error_class(class))),
        (FollowingPhase::Processing, FollowingEvent::WorksProcessed(Ok(t))) => {
            let mut u = u;
            u.phase = FollowingPhase::Marking { totals: t };
            (u, FollowingAction::MarkCollected)
        },
        (FollowingPhase::Processing, FollowingEvent::WorksProcessed(Err(class))) => following_finish_exec(u, Err(class)),
        (FollowingPhase::Marking { totals }, FollowingEvent::Marked) => following_finish_exec(u, Ok(totals)),
        (FollowingPhase::Marking { .. }, FollowingEvent::MarkFailed(error)) => following_finish_exec(u, Err(database_error_class(&error))),
        _ => following_finish_exec(u, Err(JobErrorClass::Permanent)),
    }
}

impl FollowingUnit {
    /// The works to process.
    pub fn work_ids(&self) -> (ids: &Vec<i64>)
        ensures
            ids@ == self@.work_ids,
    {
        &self.work_ids
    }
}

/// The following unit's laws: pages are read only while enabled artists
/// exist, within the page limit, with pages strictly increasing; the works
/// handed to processing are the listed ones, each once, of enabled artists
/// only, and the others are counted as ignored; the totals reported are
/// those of processing, once the artists were marked as collected.
pub proof fn lemma_following_unit(v: FollowingUnitView, e: FollowingEvent)
    requires
        v.wf(),
    ensures
        spec_following_step(v, e).1 matches FollowingAction::FetchPage { page }
            ==> spec_following_step(v, e).0.enabled.len() > 0
                && (v.phase matches FollowingPhase::Reading { page: p } ==> page > p && !(v.page_limit matches Some(l) && p >= l)),
        spec_following_step(v, e).1 matches FollowingAction::ProcessWorks { filtered }
            ==> spec_following_step(v, e).0.work_ids == discovery_selection(spec_following_step(v, e).0.items, Some(v.enabled)).0
                && filtered == discovery_selection(spec_following_step(v, e).0.items, Some(v.enabled)).1 as u64,
        spec_following_step(v, e).1 matches FollowingAction::Finish(Ok(t))
            ==> (v.phase matches FollowingPhase::Marking { totals } && t == totals && e == FollowingEvent::Marked)
                || (t.discovered == 0 && t.ignored == 0 && spec_following_step(v, e).0.enabled.len() == 0),
{
}

} // verus!
