//! One ranking subscription unit: which ranking pages are read, period by
//! period, which works on them are processed, how the outcome is counted
//! and from which day the next run goes on.
//!
//! Days are Julian day numbers. The Pixiv requests, the work processing
//! and the storage writes are made by the caller, who reports each result
//! as an event.

use vstd::prelude::*;
use std::collections::HashSet;
use crate::crypto::{previous_day, spec_previous_day};
use crate::domain::{DbError, JobErrorClass, PixivErrorClass};
use crate::jobs::{database_error_class, pixiv_error_class, spec_database_error_class, spec_pixiv_error_class};
use crate::pixiv_works::{PixivWorkProcessingError, ProcessedPixivWork};
use crate::subscriptions::{DiscoveryOutcome, discovery_outcome, ranking_max_page, spec_discovery_outcome};

verus! {

broadcast use vstd::std_specs::hash::group_hash_axioms;

/// What a ranking unit reads: ranks up to `max_rank`, at most `max_page`
/// pages per period, `period_count` periods, and whether it goes on
/// backwards from a stored day (a backfill) or reads the latest ranking.
#[derive(Clone, Copy, Debug, PartialEq, Eq, Structural)]
pub struct RankingConfig {
    pub max_rank: u32,
    pub max_page: u32,
    pub period_count: u32,
    pub backfill: bool,
}

impl RankingConfig {
    pub open spec fn wf(self) -> bool {
        self.max_page >= 1 && self.period_count >= 1
    }

    /// The pages that cover `max_rank` at `page_size` per page (at least
    /// one), and the current period followed by `lookback_pages` earlier
    /// ones (saturating).
    pub fn new(max_rank: u32, page_size: u32, lookback_pages: u32, backfill: bool) -> (c: Self)
        requires
            page_size > 0,
        ensures
            c.wf(),
            c.max_rank == max_rank,
            c.backfill == backfill,
            c.max_page as int == (if (max_rank as int + page_size - 1) / (page_size as int) >= 1 {
                (max_rank as int + page_size - 1) / (page_size as int)
            } else {
                1
            }),
            c.period_count == (if lookback_pages == u32::MAX { u32::MAX } else { (lookback_pages + 1) as u32 }),
    {
        let max_page = ranking_max_page(max_rank, page_size);
        let period_count = lookback_pages.saturating_add(1);
        RankingConfig { max_rank, max_page, period_count, backfill }
    }
}

/// Where a ranking unit stands.
#[derive(Clone, Copy, Debug, PartialEq, Eq, Structural)]
pub enum RankingPhase {
    /// A ranking page was asked for.
    Fetching,
    /// The current work of the page is being processed.
    Processing,
    /// The current work was saved and its ranking entry is being recorded.
    Recording,
    Finished,
}

/// The state of a ranking unit, as its view describes it.
#[verifier::ext_equal]
pub struct RankingView {
    pub config: RankingConfig,
    pub phase: RankingPhase,
    /// The period being read, counted from zero.
    pub period: u32,
    /// The page being read within the period, counted from one.
    pub page: u32,
    /// The day of the period's ranking, once known.
    pub period_date: Option<i32>,
    /// The day of the first ranking read.
    pub latest_date: Option<i32>,
    /// The day of the last period that was read to its end.
    pub oldest_date: Option<i32>,
    /// Every work taken from a page so far.
    pub seen: Set<i64>,
    /// The works of the current page to process: work id and rank.
    pub queue: Seq<(i64, u32)>,
    /// The position of the current work in `queue`.
    pub next: int,
    pub has_next_page: bool,
    pub discovered: int,
    pub ignored: int,
}

/// The state of a ranking unit.
pub struct RankingState {
    config: RankingConfig,
    phase: RankingPhase,
    period: u32,
    page: u32,
    period_date: Option<i32>,
    latest_date: Option<i32>,
    oldest_date: Option<i32>,
    seen: HashSet<i64>,
    queue: Vec<(i64, u32)>,
    next: usize,
    has_next_page: bool,
    discovered: u128,
    ignored: u128,
}

impl View for RankingState {
    type V = RankingView;

    closed spec fn view(&self) -> RankingView {
        RankingView {
            config: self.config,
            phase: self.phase,
            period: self.period,
            page: self.page,
            period_date: self.period_date,
            latest_date: self.latest_date,
            oldest_date: self.oldest_date,
            seen: self.seen@,
            queue: self.queue@,
            next: self.next as int,
            has_next_page: self.has_next_page,
            discovered: self.discovered as int,
            ignored: self.ignored as int,
        }
    }
}

/// What a finished unit reports: the works saved and recorded, those left
/// aside, and the day the next run starts from.
#[derive(Clone, Copy, Debug, PartialEq, Eq, Structural)]
pub struct RankingUnitResult {
    pub discovered: u128,
    pub ignored: u128,
    pub cursor_date: Option<i32>,
}

/// What a ranking unit asks for next.
#[derive(Debug, PartialEq, Eq)]
pub enum RankingAction {
    /// Read this page of the ranking of this day (the latest when `None`).
    FetchPage { date: Option<i32>, page: u32 },
    /// Process this work, discovered at this rank of this day's ranking.
    ProcessWork { work_id: i64, rank: u32, date: Option<i32> },
    /// Record the saved work as an entry of the unit.
    RecordEntry { work_id: i64, rank: u32, date: Option<i32>, page: u32 },
    Finish(Result<RankingUnitResult, JobErrorClass>),
}

/// What the last request reported.
#[derive(Debug, PartialEq, Eq)]
pub enum RankingEvent {
    /// A ranking page: its day, its entries as rank and work id, in order,
    /// and whether another page follows.
    PageFetched { date: Option<i32>, items: Vec<(u32, i64)>, has_next: bool },
    PageFailed(PixivErrorClass),
    WorkProcessed(Result<ProcessedPixivWork, PixivWorkProcessingError>),
    /// The entry was stored; `recorded` is false when it was already there.
    EntryRecorded { recorded: bool },
    RecordFailed(DbError),
}

/// Works whose rank is within the limit and that were not taken before, in
/// page order, with the ids taken so far.
pub open spec fn page_selection(items: Seq<(u32, i64)>, max_rank: u32, seen: Set<i64>) -> (Seq<(i64, u32)>, Set<i64>)
    decreases items.len(),
{
    if items.len() == 0 {
        (Seq::empty(), seen)
    } else {
        let (queue, taken) = page_selection(items.drop_last(), max_rank, seen);
        let (rank, work) = items.last();
        if rank > max_rank || taken.contains(work) {
            (queue, taken)
        } else {
            (queue.push((work, rank)), taken.insert(work))
        }
    }
}

/// How many works of the current page still wait to be counted.
pub open spec fn pending(v: RankingView) -> int {
    if v.phase == RankingPhase::Processing || v.phase == RankingPhase::Recording {
        v.queue.len() - v.next
    } else {
        0
    }
}

/// The ids on a queue, each once, all taken.
pub open spec fn queue_taken(queue: Seq<(i64, u32)>, seen: Set<i64>) -> bool {
    &&& forall|i: int, j: int| 0 <= i < j < queue.len() ==> #[trigger] queue[i].0 != #[trigger] queue[j].0
    &&& forall|i: int| 0 <= i < queue.len() ==> seen.contains(#[trigger] queue[i].0)
}

impl RankingView {
    /// The unit's invariant: its configuration holds, the current work is
    /// on the queue, pages and periods stay within their limits, the queue
    /// holds taken works each once and within the rank limit, and every counted or waiting work is a
    /// distinct taken work.
    pub open spec fn wf(self) -> bool {
        &&& self.config.wf()
        &&& self.seen.finite()
        &&& 0 <= self.next
        &&& (self.phase == RankingPhase::Processing || self.phase == RankingPhase::Recording) ==> self.next < self.queue.len()
        &&& 1 <= self.page <= self.config.max_page
        &&& self.period < self.config.period_count
        &&& queue_taken(self.queue, self.seen)
        &&& forall|i: int| 0 <= i < self.queue.len() ==> #[trigger] self.queue[i].1 <= self.config.max_rank
        &&& self.discovered >= 0
        &&& self.ignored >= 0
        &&& self.discovered + self.ignored + pending(self) <= self.seen.len()
    }
}

/// The day the next run starts from: the day before the oldest period that
/// was read, for a backfill; else the day of the first ranking read.
pub open spec fn spec_cursor_date(v: RankingView) -> Option<i32> {
    if v.config.backfill {
        match v.oldest_date {
            Some(d) => spec_previous_day(d),
            None => None,
        }
    } else {
        v.latest_date
    }
}

pub open spec fn finish_ok(v: RankingView) -> (RankingView, RankingAction) {
    (
        RankingView { phase: RankingPhase::Finished, ..v },
        RankingAction::Finish(Ok(RankingUnitResult {
            discovered: v.discovered as u128,
            ignored: v.ignored as u128,
            cursor_date: spec_cursor_date(v),
        })),
    )
}

pub open spec fn fail(v: RankingView, class: JobErrorClass) -> (RankingView, RankingAction) {
    (RankingView { phase: RankingPhase::Finished, ..v }, RankingAction::Finish(Err(class)))
}

/// A period ends: its day becomes the oldest one read; the next period is
/// the day before it, while periods remain and such a day exists.
pub open spec fn end_period(v: RankingView) -> (RankingView, RankingAction) {
    let ended = RankingView { oldest_date: v.period_date, ..v };
    if v.period + 1 < v.config.period_count {
        match v.period_date {
            Some(d) => match spec_previous_day(d) {
                Some(p) => (
                    RankingView {
                        phase: RankingPhase::Fetching,
                        period: (v.period + 1) as u32,
                        page: 1,
                        period_date: Some(p),
                        queue: Seq::empty(),
                        next: 0,
                        ..ended
                    },
                    RankingAction::FetchPage { date: Some(p), page: 1 },
                ),
                None => finish_ok(ended),
            },
            None => finish_ok(ended),
        }
    } else {
        finish_ok(ended)
    }
}

/// A page ends: the next page of the same day follows while Pixiv offers
/// one and the page limit is not reached; otherwise the period ends.
pub open spec fn end_page(v: RankingView) -> (RankingView, RankingAction) {
    if !v.has_next_page || v.page >= v.config.max_page {
        end_period(v)
    } else {
        (
            RankingView { phase: RankingPhase::Fetching, page: (v.page + 1) as u32, queue: Seq::empty(), next: 0, ..v },
            RankingAction::FetchPage { date: v.period_date, page: (v.page + 1) as u32 },
        )
    }
}

pub open spec fn process_current(v: RankingView) -> RankingAction {
    RankingAction::ProcessWork { work_id: v.queue[v.next].0, rank: v.queue[v.next].1, date: v.period_date }
}

/// On to the next work of the page, or to the end of the page.
pub open spec fn advance(v: RankingView) -> (RankingView, RankingAction) {
    let moved = RankingView { next: v.next + 1, ..v };
    if v.next + 1 < v.queue.len() {
        (RankingView { phase: RankingPhase::Processing, ..moved }, process_current(moved))
    } else {
        end_page(moved)
    }
}

pub open spec fn spec_start_ranking(config: RankingConfig, cursor_date: Option<i32>) -> (RankingView, RankingAction) {
    let requested = if config.backfill { cursor_date } else { None };
    (
        RankingView {
            config,
            phase: RankingPhase::Fetching,
            period: 0,
            page: 1,
            period_date: requested,
            latest_date: None,
            oldest_date: None,
            seen: Set::empty(),
            queue: Seq::empty(),
            next: 0,
            has_next_page: false,
            discovered: 0,
            ignored: 0,
        },
        RankingAction::FetchPage { date: requested, page: 1 },
    )
}

pub open spec fn spec_ranking_step(v: RankingView, e: RankingEvent) -> (RankingView, RankingAction) {
    match (v.phase, e) {
        (RankingPhase::Fetching, RankingEvent::PageFetched { date, items, has_next }) => {
            let day = match date {
                Some(d) => Some(d),
                None => v.period_date,
            };
            let latest = match v.latest_date {
                Some(l) => Some(l),
                None => day,
            };
            let (queue, seen) = page_selection(items@, v.config.max_rank, v.seen);
            let read = RankingView {
                period_date: day,
                latest_date: latest,
                seen,
                queue,
                next: 0,
                has_next_page: has_next,
                ..v
            };
            if queue.len() > 0 {
                (RankingView { phase: RankingPhase::Processing, ..read }, process_current(read))
            } else {
                end_page(read)
            }
        },
        (RankingPhase::Fetching, RankingEvent::PageFailed(class)) => fail(v, spec_pixiv_error_class(class)),
        (RankingPhase::Processing, RankingEvent::WorkProcessed(result)) => match spec_discovery_outcome(result, false) {
            DiscoveryOutcome::Discovered => (
                RankingView { phase: RankingPhase::Recording, ..v },
                RankingAction::RecordEntry {
                    work_id: v.queue[v.next].0,
                    rank: v.queue[v.next].1,
                    date: v.period_date,
                    page: v.page,
                },
            ),
            DiscoveryOutcome::Abort(class) => fail(v, class),
            DiscoveryOutcome::Ignored | DiscoveryOutcome::RetryLater => advance(RankingView { ignored: v.ignored + 1, ..v }),
        },
        (RankingPhase::Recording, RankingEvent::EntryRecorded { recorded }) =>
            advance(RankingView { discovered: if recorded { v.discovered + 1 } else { v.discovered }, ..v }),
        (RankingPhase::Recording, RankingEvent::RecordFailed(error)) => fail(v, spec_database_error_class(error)),
        _ => fail(v, JobErrorClass::Permanent),
    }
}

/// Every step keeps the unit's invariant.
proof fn lemma_ranking_step_wf(v: RankingView, e: RankingEvent)
    requires
        v.wf(),
    ensures
        spec_ranking_step(v, e).0.wf(),
{
    match (v.phase, e) {
        (RankingPhase::Fetching, RankingEvent::PageFetched { date, items, has_next }) => {
            lemma_page_selection(items@, v.config.max_rank, v.seen);
        },
        _ => {},
    }
}

/// Each work is processed at most once in a unit, and never one ranked
/// beyond the limit: the works a page puts on the queue were not taken on
/// any earlier page, each appears once and within the rank limit; the
/// taken works only grow; and a work is processed or recorded only as the
/// current work of the queue.
pub proof fn lemma_ranking_work_once(v: RankingView, e: RankingEvent)
    requires
        v.wf(),
    ensures
        ({
            let (n, a) = spec_ranking_step(v, e);
            &&& v.seen.subset_of(n.seen)
            &&& (v.phase == RankingPhase::Fetching && e is PageFetched) ==> forall|i: int| 0 <= i < n.queue.len()
                ==> !v.seen.contains(#[trigger] n.queue[i].0) && n.queue[i].1 <= v.config.max_rank
            &&& (a matches RankingAction::ProcessWork { work_id, rank, .. } ==> 0 <= n.next < n.queue.len()
                && n.queue[n.next] == (work_id, rank) && rank <= v.config.max_rank && n.seen.contains(work_id))
            &&& (a matches RankingAction::RecordEntry { work_id, rank, .. } ==> a == (RankingAction::RecordEntry {
                work_id: v.queue[v.next].0, rank: v.queue[v.next].1, date: v.period_date, page: v.page }))
        }),
{
    lemma_ranking_step_wf(v, e);
    match (v.phase, e) {
        (RankingPhase::Fetching, RankingEvent::PageFetched { date, items, has_next }) => {
            lemma_page_selection(items@, v.config.max_rank, v.seen);
        },
        _ => {},
    }
}

/// The day the next run starts from is the day before the oldest period
/// that was read, for a backfill, and the day of the first ranking read
/// otherwise; once known, that first day never changes.
pub proof fn lemma_ranking_cursor(v: RankingView, e: RankingEvent)
    requires
        v.wf(),
    ensures
        ({
            let (n, a) = spec_ranking_step(v, e);
            &&& (v.latest_date is Some ==> n.latest_date == v.latest_date)
            &&& (a matches RankingAction::Finish(Ok(r)) ==> r.cursor_date == (if v.config.backfill {
                match n.oldest_date {
                    Some(d) => spec_previous_day(d),
                    None => None,
                }
            } else {
                n.latest_date
            }) && r.discovered == n.discovered && r.ignored == n.ignored)
        }),
{
    lemma_ranking_step_wf(v, e);
    lemma_id_set_len(v.seen);
    match (v.phase, e) {
        (RankingPhase::Fetching, RankingEvent::PageFetched { date, items, has_next }) => {
            lemma_page_selection(items@, v.config.max_rank, v.seen);
            lemma_id_set_len(spec_ranking_step(v, e).0.seen);
        },
        _ => {},
    }
}

/// Whether Pixiv offered another page of the period: what the page just
/// read says, or else what the last page read said.
pub open spec fn offers_next_page(v: RankingView, e: RankingEvent) -> bool {
    match e {
        RankingEvent::PageFetched { has_next, .. } => if v.phase == RankingPhase::Fetching { has_next } else { v.has_next_page },
        _ => v.has_next_page,
    }
}

/// A unit asks for a further page of the same day only when Pixiv offered
/// one and the page limit is not reached: every page request is either
/// the next page of the period being read, under those two conditions, or
/// the first page of the following period, on the day before, once the
/// period's last page (by Pixiv or by the limit) was read and while periods
/// remain. Without a further page, ending a page ends the period.
pub proof fn lemma_ranking_pages_follow_pixiv(v: RankingView, e: RankingEvent)
    requires
        v.wf(),
    ensures
        ({
            let more = offers_next_page(v, e);
            let (n, a) = spec_ranking_step(v, e);
            a matches RankingAction::FetchPage { date, page } ==> (
                (n.period == v.period && page == v.page + 1 && n.page == page && more && v.page < v.config.max_page
                    && date == n.period_date)
                || (n.period == v.period + 1 && page == 1 && n.page == 1 && n.period_date is Some && date == n.period_date
                    && (!more || v.page >= v.config.max_page) && v.period + 1 < v.config.period_count
                    && n.oldest_date is Some && spec_previous_day(n.oldest_date->0) == n.period_date))
        }),
{
    lemma_ranking_step_wf(v, e);
}

/// The unit counts what it did: a saved work (metadata saved or download
/// queued) is recorded as an entry of its rank, day and page and counted
/// as discovered only once the entry is newly stored; any other outcome of
/// a work, and Pixiv refusing it for good, counts as ignored; any other
/// failure ends the unit with its class; nothing else changes the counts.
pub proof fn lemma_ranking_counts(v: RankingView, e: RankingEvent)
    requires
        v.wf(),
    ensures
        ({
            let (n, a) = spec_ranking_step(v, e);
            let saved = e matches RankingEvent::WorkProcessed(Ok(w))
                && (w is MetadataSaved || w is DownloadQueued);
            let passed = (e matches RankingEvent::WorkProcessed(Ok(w)) && !(w is MetadataSaved || w is DownloadQueued))
                || e == RankingEvent::WorkProcessed(Err(PixivWorkProcessingError::Pixiv(JobErrorClass::Permanent)));
            &&& n.discovered == v.discovered + (if v.phase == RankingPhase::Recording
                && e == (RankingEvent::EntryRecorded { recorded: true }) { 1int } else { 0int })
            &&& n.ignored == v.ignored + (if v.phase == RankingPhase::Processing && passed { 1int } else { 0int })
            &&& (v.phase == RankingPhase::Processing && saved ==> a == (RankingAction::RecordEntry {
                work_id: v.queue[v.next].0, rank: v.queue[v.next].1, date: v.period_date, page: v.page }))
            &&& (v.phase == RankingPhase::Processing && (e matches RankingEvent::WorkProcessed(r) && r is Err) && !passed
                ==> a == RankingAction::Finish(Err(crate::pixiv_works::spec_processing_error_class(e->WorkProcessed_0->Err_0))))
        }),
{
}

/// A finite set of 64-bit ids holds at most 2^64 of them.
proof fn lemma_id_set_len(s: Set<i64>)
    requires
        s.finite(),
    ensures
        s.len() <= 0x1_0000_0000_0000_0000,
{
    let f = |x: i64| x as int;
    let m = s.map(f);
    assert(vstd::relations::injective_on(f, s));
    vstd::set_lib::lemma_map_size(s, m, f);
    let full = vstd::set_lib::set_int_range(i64::MIN as int, i64::MAX as int + 1);
    vstd::set_lib::lemma_int_range(i64::MIN as int, i64::MAX as int + 1);
    assert forall|y: int| m.contains(y) implies full.contains(y) by {
        let x = choose|x: i64| s.contains(x) && y == f(x);
    }
    vstd::set_lib::lemma_len_subset(m, full);
}

/// A page adds its selected works to the taken ones: none was taken
/// before, each appears once, each rank is within the limit.
proof fn lemma_page_selection(items: Seq<(u32, i64)>, max_rank: u32, seen: Set<i64>)
    requires
        seen.finite(),
    ensures
        ({
            let (queue, taken) = page_selection(items, max_rank, seen);
            &&& taken.finite()
            &&& taken.len() == seen.len() + queue.len()
            &&& seen.subset_of(taken)
            &&& forall|i: int| 0 <= i < queue.len() ==> !seen.contains(#[trigger] queue[i].0)
            &&& forall|i: int| 0 <= i < queue.len() ==> #[trigger] queue[i].1 <= max_rank
            &&& queue_taken(queue, taken)
        }),
    decreases items.len(),
{
    if items.len() > 0 {
        lemma_page_selection(items.drop_last(), max_rank, seen);
        let (queue, taken) = page_selection(items.drop_last(), max_rank, seen);
        let (rank, work) = items.last();
        if !(rank > max_rank || taken.contains(work)) {
            let q2 = queue.push((work, rank));
            assert forall|i: int| 0 <= i < q2.len() implies !seen.contains(#[trigger] q2[i].0) by {
                if i < queue.len() {
                    assert(q2[i] == queue[i]);
                }
            }
            assert forall|i: int, j: int| 0 <= i < j < q2.len() implies #[trigger] q2[i].0 != #[trigger] q2[j].0 by {
                if j < queue.len() {
                    assert(q2[i] == queue[i] && q2[j] == queue[j]);
                } else {
                    assert(q2[i] == queue[i]);
                    assert(taken.contains(queue[i].0));
                }
            }
            assert forall|i: int| 0 <= i < q2.len() implies taken.insert(work).contains(#[trigger] q2[i].0) by {
                if i < queue.len() {
                    assert(q2[i] == queue[i]);
                }
            }
            assert forall|i: int| 0 <= i < q2.len() implies #[trigger] q2[i].1 <= max_rank by {
                if i < queue.len() {
                    assert(q2[i] == queue[i]);
                }
            }
        }
    }
}

fn select_page(items: &Vec<(u32, i64)>, max_rank: u32, seen: &mut HashSet<i64>) -> (queue: Vec<(i64, u32)>)
    ensures
        (queue@, final(seen)@) == page_selection(items@, max_rank, old(seen)@),
{
    let mut queue: Vec<(i64, u32)> = Vec::new();
    let mut i: usize = 0;
    while i < items.len()
        invariant
            i <= items@.len(),
            (queue@, seen@) == page_selection(items@.take(i as int), max_rank, old(seen)@),
        decreases items.len() - i,
    {
        proof {
            assert(items@.take(i as int + 1).drop_last() =~= items@.take(i as int));
            assert(items@.take(i as int + 1).last() == items@[i as int]);
        }
        let (rank, work) = items[i];
        if rank <= max_rank {
            let fresh = seen.insert(work);
            if fresh {
                queue.push((work, rank));
            }
        }
        i = i + 1;
    }
    proof {
        assert(items@.take(items@.len() as int) =~= items@);
    }
    queue
}

fn finish_ok_exec(s: RankingState) -> (next: (RankingState, RankingAction))
    requires
        s@.config.wf(),
        s@.discovered >= 0,
        s@.ignored >= 0,
    ensures
        next.0@ == finish_ok(s@).0,
        next.1 == finish_ok(s@).1,
{
    let cursor_date = if s.config.backfill {
        match s.oldest_date {
            Some(d) => previous_day(d),
            None => None,
        }
    } else {
        s.latest_date
    };
    let result = RankingUnitResult { discovered: s.discovered, ignored: s.ignored, cursor_date };
    let mut s = s;
    s.phase = RankingPhase::Finished;
    (s, RankingAction::Finish(Ok(result)))
}

fn fail_exec(s: RankingState, class: JobErrorClass) -> (next: (RankingState, RankingAction))
    ensures
        next.0@ == fail(s@, class).0,
        next.1 == fail(s@, class).1,
{
    let mut s = s;
    s.phase = RankingPhase::Finished;
    (s, RankingAction::Finish(Err(class)))
}

fn end_period_exec(s: RankingState) -> (next: (RankingState, RankingAction))
    requires
        s@.config.wf(),
        s@.period < s@.config.period_count,
        s@.discovered >= 0,
        s@.ignored >= 0,
    ensures
        next.0@ == end_period(s@).0,
        next.1 == end_period(s@).1,
{
    let mut s = s;
    s.oldest_date = s.period_date;
    if s.period + 1 < s.config.period_count {
        match s.period_date {
            Some(d) => match previous_day(d) {
                Some(p) => {
                    s.phase = RankingPhase::Fetching;
                    s.period = s.period + 1;
                    s.page = 1;
                    s.period_date = Some(p);
                    s.queue = Vec::new();
                    s.next = 0;
                    proof {
                        assert(s.queue@ =~= Seq::<(i64, u32)>::empty());
                    }
                    (s, RankingAction::FetchPage { date: Some(p), page: 1 })
                },
                None => finish_ok_exec(s),
            },
            None => finish_ok_exec(s),
        }
    } else {
        finish_ok_exec(s)
    }
}

fn end_page_exec(s: RankingState) -> (next: (RankingState, RankingAction))
    requires
        s@.config.wf(),
        s@.period < s@.config.period_count,
        s@.discovered >= 0,
        s@.ignored >= 0,
    ensures
        next.0@ == end_page(s@).0,
        next.1 == end_page(s@).1,
{
    if !s.has_next_page || s.page >= s.config.max_page {
        end_period_exec(s)
    } else {
        let mut s = s;
        s.phase = RankingPhase::Fetching;
        s.page = s.page + 1;
        s.queue = Vec::new();
        s.next = 0;
        proof {
            assert(s.queue@ =~= Seq::<(i64, u32)>::empty());
        }
        let date = s.period_date;
        let page = s.page;
        (s, RankingAction::FetchPage { date, page })
    }
}

fn advance_exec(s: RankingState) -> (next: (RankingState, RankingAction))
    requires
        s@.config.wf(),
        s@.period < s@.config.period_count,
        s@.next < s@.queue.len(),
        s@.discovered >= 0,
        s@.ignored >= 0,
    ensures
        next.0@ == advance(s@).0,
        next.1 == advance(s@).1,
{
    let mut s = s;
    let len = s.queue.len();
    s.next = s.next + 1;
    if s.next < len {
        s.phase = RankingPhase::Processing;
        let (work_id, rank) = s.queue[s.next];
        let date = s.period_date;
        (s, RankingAction::ProcessWork { work_id, rank, date })
    } else {
        end_page_exec(s)
    }
}

/// The first request of a ranking unit: the first page of the stored day
/// for a backfill, of the latest ranking otherwise.
pub fn start_ranking(config: RankingConfig, cursor_date: Option<i32>) -> (r: (RankingState, RankingAction))
    requires
        config.wf(),
    ensures
        r.0@ == spec_start_ranking(config, cursor_date).0,
        r.1 == spec_start_ranking(config, cursor_date).1,
        r.0@.wf(),
{
    let requested = if config.backfill { cursor_date } else { None };
    let s = RankingState {
        config,
        phase: RankingPhase::Fetching,
        period: 0,
        page: 1,
        period_date: requested,
        latest_date: None,
        oldest_date: None,
        seen: HashSet::new(),
        queue: Vec::new(),
        next: 0,
        has_next_page: false,
        discovered: 0,
        ignored: 0,
    };
    proof {
        assert(s@.queue =~= Seq::<(i64, u32)>::empty());
        assert(s@.seen =~= Set::<i64>::empty());
    }
    (s, RankingAction::FetchPage { date: requested, page: 1 })
}

/// One decision of a ranking unit. Each page's entries are taken in order,
/// skipping ranks beyond the limit and works already taken on this run;
/// each taken work is processed, and a saved one recorded as an entry. A
/// work that was ignored, blocked, or that Pixiv refuses for good counts as
/// ignored; any other failure ends the unit with its class. Pages follow
/// while Pixiv offers more, up to the page limit; then the period ends and
/// the day before it is read next, while periods remain. The unit ends
/// with its counts and the day the next run starts from.
pub fn ranking_step(s: RankingState, e: RankingEvent) -> (next: (RankingState, RankingAction))
    requires
        s@.wf(),
    ensures
        next.0@ == spec_ranking_step(s@, e).0,
        next.1 == spec_ranking_step(s@, e).1,
        next.0@.wf(),
{
    proof {
        lemma_ranking_step_wf(s@, e);
        lemma_id_set_len(s@.seen);
    }
    match (s.phase, e) {
        (RankingPhase::Fetching, RankingEvent::PageFetched { date, items, has_next }) => {
            let mut s = s;
            let ghost before = s@;
            let day = match date {
                Some(d) => Some(d),
                None => s.period_date,
            };
            let latest = match s.latest_date {
                Some(l) => Some(l),
                None => day,
            };
            let queue = select_page(&items, s.config.max_rank, &mut s.seen);
            s.period_date = day;
            s.latest_date = latest;
            s.queue = queue;
            s.next = 0;
            s.has_next_page = has_next;
            proof {
                lemma_page_selection(items@, before.config.max_rank, before.seen);
            }
            if s.queue.len() > 0 {
                s.phase = RankingPhase::Processing;
                let (work_id, rank) = s.queue[0];
                (s, RankingAction::ProcessWork { work_id, rank, date: day })
            } else {
                end_page_exec(s)
            }
        },
        (RankingPhase::Fetching, RankingEvent::PageFailed(class)) => fail_exec(s, pixiv_error_class(class)),
        (RankingPhase::Processing, RankingEvent::WorkProcessed(result)) => match discovery_outcome(&result, false) {
            DiscoveryOutcome::Discovered => {
                let mut s = s;
                s.phase = RankingPhase::Recording;
                let (work_id, rank) = s.queue[s.next];
                let date = s.period_date;
                let page = s.page;
                (s, RankingAction::RecordEntry { work_id, rank, date, page })
            },
            DiscoveryOutcome::Abort(class) => fail_exec(s, class),
            DiscoveryOutcome::Ignored | DiscoveryOutcome::RetryLater => {
                let mut s = s;
                s.ignored = s.ignored + 1;
                advance_exec(s)
            },
        },
        (RankingPhase::Recording, RankingEvent::EntryRecorded { recorded }) => {
            let mut s = s;
            if recorded {
                s.discovered = s.discovered + 1;
            }
            advance_exec(s)
        },
        (RankingPhase::Recording, RankingEvent::RecordFailed(error)) => fail_exec(s, database_error_class(&error)),
        _ => fail_exec(s, JobErrorClass::Permanent),
    }
}

} // verus!
