//! Subscriptions: the allowed synchronization intervals, the parameters a
//! run reads, how a unit's outcome is reported and how a run adds up its
//! units.

use vstd::prelude::*;
use std::collections::HashSet;
use crate::domain::{DbError, JobErrorClass, job_error_class_name};
use crate::following::FollowingServiceError;
use crate::pixiv_works::{PixivWorkProcessingError, ProcessedPixivWork, spec_processing_error_class};
use crate::jobs::{database_error_class, pixiv_error_class, spec_database_error_class, spec_pixiv_error_class};

verus! {

broadcast use vstd::std_specs::hash::group_hash_axioms;

pub open spec fn spec_allowed_interval(minutes: i64) -> bool {
    minutes == 15 || minutes == 30 || minutes == 60 || minutes == 180 || minutes == 360 || minutes == 720 || minutes == 1440
}

/// Synchronization runs every 15 or 30 minutes, or every 1, 3, 6, 12 or
/// 24 hours.
pub fn allowed_sync_interval(minutes: i64) -> (b: bool)
    ensures
        b == spec_allowed_interval(minutes),
{
    minutes == 15 || minutes == 30 || minutes == 60 || minutes == 180 || minutes == 360 || minutes == 720 || minutes == 1440
}

/// A following synchronization interval outside the allowed ones is
/// refused.
pub fn check_following_interval(minutes: i64) -> (r: Result<(), DbError>)
    ensures
        r is Ok <==> spec_allowed_interval(minutes),
        r matches Err(e) ==> e matches DbError::InvalidValue(m) && m@ == "unsupported following synchronization interval"@,
{
    if allowed_sync_interval(minutes) {
        Ok(())
    } else {
        Err(DbError::InvalidValue(String::from_str("unsupported following synchronization interval")))
    }
}

/// Where a subscription run or unit stands.
#[derive(Clone, Copy, Debug, PartialEq, Eq, Structural)]
pub enum SubscriptionRunStatus {
    Queued,
    Running,
    Succeeded,
    Failed,
}

pub open spec fn subscription_error_text(class: JobErrorClass) -> Seq<char> {
    match class {
        JobErrorClass::Network => "Pixiv 网络请求失败"@,
        JobErrorClass::Server => "Pixiv 服务暂时不可用或响应无法处理"@,
        JobErrorClass::RateLimit => "Pixiv 请求频率受限"@,
        JobErrorClass::CredentialInvalid => "Pixiv Cookie 已失效"@,
        JobErrorClass::Permanent => "来源数据或订阅参数无法处理"@,
    }
}

/// The message recorded with a failed unit of each class.
pub fn subscription_error_message(class: JobErrorClass) -> (m: &'static str)
    ensures
        m@ == subscription_error_text(class),
{
    match class {
        JobErrorClass::Network => "Pixiv 网络请求失败",
        JobErrorClass::Server => "Pixiv 服务暂时不可用或响应无法处理",
        JobErrorClass::RateLimit => "Pixiv 请求频率受限",
        JobErrorClass::CredentialInvalid => "Pixiv Cookie 已失效",
        JobErrorClass::Permanent => "来源数据或订阅参数无法处理",
    }
}

/// The class of a failed following collection.
pub fn following_error_class(error: &FollowingServiceError) -> (c: JobErrorClass)
    ensures
        c == (match error {
            FollowingServiceError::Storage(db) => spec_database_error_class(*db),
            FollowingServiceError::Pixiv(p) => spec_pixiv_error_class(*p),
        }),
{
    match error {
        FollowingServiceError::Storage(db) => database_error_class(db),
        FollowingServiceError::Pixiv(p) => pixiv_error_class(*p),
    }
}

/// The page a run continues from: the default without a cursor; a cursor
/// must hold a page number that fits in 32 bits.
pub fn cursor_page(cursor_present: bool, page: Option<u64>, default_page: u32) -> (r: Result<u32, JobErrorClass>)
    ensures
        r == (if !cursor_present {
            Ok(default_page)
        } else {
            match page {
                Some(p) => if p <= u32::MAX { Ok(p as u32) } else { Err(JobErrorClass::Permanent) },
                None => Err(JobErrorClass::Permanent),
            }
        }),
{
    if !cursor_present {
        return Ok(default_page);
    }
    match page {
        Some(p) => if p <= u32::MAX as u64 { Ok(p as u32) } else { Err(JobErrorClass::Permanent) },
        None => Err(JobErrorClass::Permanent),
    }
}

/// A ranking subscription collects the top 20 unless it names another
/// depth, which must be between 1 and 5000.
pub fn ranking_max_rank(max_rank: Option<u64>) -> (r: Result<u32, JobErrorClass>)
    ensures
        r == (match max_rank {
            None => Ok(20u32),
            Some(m) => if 1 <= m <= 5000 { Ok(m as u32) } else { Err(JobErrorClass::Permanent) },
        }),
{
    match max_rank {
        None => Ok(20),
        Some(m) => if m > u32::MAX as u64 {
            Err(JobErrorClass::Permanent)
        } else if 1 <= m && m <= 5000 {
            Ok(m as u32)
        } else {
            Err(JobErrorClass::Permanent)
        },
    }
}

/// A positive page size that fits in 32 bits, or the default.
pub fn page_size(requested: Option<u64>, default: u32) -> (s: u32)
    ensures
        s == (match requested {
            Some(p) => if 0 < p <= u32::MAX { p as u32 } else { default },
            None => default,
        }),
{
    match requested {
        Some(p) => if p > 0 && p <= u32::MAX as u64 { p as u32 } else { default },
        None => default,
    }
}

/// What one unit of a run reported.
#[derive(Clone, Debug, PartialEq, Eq)]
pub struct SubscriptionExecutionResult {
    pub status: SubscriptionRunStatus,
    pub discovered_count: i32,
    pub ignored_count: i32,
    pub error_class: Option<String>,
    pub error_message: Option<String>,
}

/// The counts a unit added when it succeeded.
#[derive(Clone, Copy, Debug, PartialEq, Eq, Structural)]
pub struct ExecutedUnit {
    pub discovered_count: i32,
    pub ignored_count: i32,
}

/// A unit's result: its counts when it succeeded; nothing counted, its
/// class by name and the class's message when it failed.
pub fn unit_attempt_result(outcome: Result<ExecutedUnit, JobErrorClass>) -> (r: SubscriptionExecutionResult)
    ensures
        match outcome {
            Ok(u) => r == (SubscriptionExecutionResult {
                status: SubscriptionRunStatus::Succeeded,
                discovered_count: u.discovered_count,
                ignored_count: u.ignored_count,
                error_class: None,
                error_message: None,
            }),
            Err(c) => r.status == SubscriptionRunStatus::Failed && r.discovered_count == 0 && r.ignored_count == 0
                && (r.error_class matches Some(n) && n@ == job_error_class_name(c))
                && (r.error_message matches Some(m) && m@ == subscription_error_text(c)),
        },
{
    match outcome {
        Ok(u) => SubscriptionExecutionResult {
            status: SubscriptionRunStatus::Succeeded,
            discovered_count: u.discovered_count,
            ignored_count: u.ignored_count,
            error_class: None,
            error_message: None,
        },
        Err(c) => SubscriptionExecutionResult {
            status: SubscriptionRunStatus::Failed,
            discovered_count: 0,
            ignored_count: 0,
            error_class: Some(String::from_str(c.as_str())),
            error_message: Some(String::from_str(subscription_error_message(c))),
        },
    }
}

pub open spec fn total_discovered(units: Seq<SubscriptionExecutionResult>) -> int
    decreases units.len(),
{
    if units.len() == 0 { 0 } else { total_discovered(units.drop_last()) + units.last().discovered_count }
}

pub open spec fn total_ignored(units: Seq<SubscriptionExecutionResult>) -> int
    decreases units.len(),
{
    if units.len() == 0 { 0 } else { total_ignored(units.drop_last()) + units.last().ignored_count }
}

/// The first failed unit, if any.
pub open spec fn first_failure(units: Seq<SubscriptionExecutionResult>) -> Option<int>
    decreases units.len(),
{
    if units.len() == 0 {
        None
    } else {
        match first_failure(units.drop_last()) {
            Some(i) => Some(i),
            None => if units.last().status == SubscriptionRunStatus::Failed { Some(units.len() - 1) } else { None },
        }
    }
}

/// Every prefix of the units keeps its counts inside `i32`.
pub open spec fn counts_fit(units: Seq<SubscriptionExecutionResult>) -> bool {
    forall|n: int| 0 <= n <= units.len() ==> i32::MIN <= #[trigger] total_discovered(units.take(n)) <= i32::MAX
        && i32::MIN <= total_ignored(units.take(n)) <= i32::MAX
}

/// A run adds up its units: the counts are summed, the run failed when any
/// unit failed, and it reports the class and message of the first failed
/// unit.
pub fn aggregate_units(units: &Vec<SubscriptionExecutionResult>) -> (r: SubscriptionExecutionResult)
    requires
        counts_fit(units@),
    ensures
        r.discovered_count == total_discovered(units@),
        r.ignored_count == total_ignored(units@),
        r.status == (if first_failure(units@) is Some { SubscriptionRunStatus::Failed } else { SubscriptionRunStatus::Succeeded }),
        match first_failure(units@) {
            Some(i) => r.error_class == units@[i].error_class && r.error_message == units@[i].error_message,
            None => r.error_class is None && r.error_message is None,
        },
{
    let mut discovered: i32 = 0;
    let mut ignored: i32 = 0;
    let mut failed = false;
    let mut error_class: Option<String> = None;
    let mut error_message: Option<String> = None;
    let mut i: usize = 0;
    proof {
        assert(units@.take(0) =~= Seq::<SubscriptionExecutionResult>::empty());
    }
    while i < units.len()
        invariant
            i <= units@.len(),
            counts_fit(units@),
            discovered == total_discovered(units@.take(i as int)),
            ignored == total_ignored(units@.take(i as int)),
            failed == (first_failure(units@.take(i as int)) is Some),
            match first_failure(units@.take(i as int)) {
                Some(k) => 0 <= k < i && error_class == units@[k].error_class && error_message == units@[k].error_message,
                None => error_class is None && error_message is None,
            },
        decreases units.len() - i,
    {
        proof {
            assert(units@.take(i as int + 1).drop_last() =~= units@.take(i as int));
            assert(units@.take(i as int + 1).last() == units@[i as int]);
            assert(i32::MIN <= total_discovered(units@.take(i as int + 1)) <= i32::MAX);
            assert(i32::MIN <= total_ignored(units@.take(i as int + 1)) <= i32::MAX);
            if let Some(k) = first_failure(units@.take(i as int)) {
                assert(units@.take(i as int)[k] == units@[k]);
            }
        }
        let u = &units[i];
        discovered = discovered + u.discovered_count;
        ignored = ignored + u.ignored_count;
        if u.status == SubscriptionRunStatus::Failed && !failed {
            failed = true;
            error_class = match &u.error_class {
                Some(c) => Some(c.clone()),
                None => None,
            };
            error_message = match &u.error_message {
                Some(m) => Some(m.clone()),
                None => None,
            };
        } else if u.status == SubscriptionRunStatus::Failed {
            failed = true;
        }
        i = i + 1;
    }
    proof {
        assert(units@.take(units@.len() as int) =~= units@);
    }
    SubscriptionExecutionResult {
        status: if failed { SubscriptionRunStatus::Failed } else { SubscriptionRunStatus::Succeeded },
        discovered_count: discovered,
        ignored_count: ignored,
        error_class,
        error_message,
    }
}

/// A unit that already failed is not failed again.
pub fn needs_failure_record(state: SubscriptionRunStatus) -> (b: bool)
    ensures
        b == (state != SubscriptionRunStatus::Failed),
{
    state != SubscriptionRunStatus::Failed
}

/// What a subscription job does with its unit.
#[derive(Clone, Copy, Debug, PartialEq, Eq, Structural)]
pub enum UnitJobDecision {
    Complete,
    RepeatFailure,
    Execute,
}

/// A succeeded unit completes its job, a failed one repeats its stored
/// failure, any other is executed.
pub fn unit_job_decision(state: SubscriptionRunStatus) -> (d: UnitJobDecision)
    ensures
        d == (if state == SubscriptionRunStatus::Succeeded {
            UnitJobDecision::Complete
        } else if state == SubscriptionRunStatus::Failed {
            UnitJobDecision::RepeatFailure
        } else {
            UnitJobDecision::Execute
        }),
{
    if state == SubscriptionRunStatus::Succeeded {
        UnitJobDecision::Complete
    } else if state == SubscriptionRunStatus::Failed {
        UnitJobDecision::RepeatFailure
    } else {
        UnitJobDecision::Execute
    }
}

/// Before changing the bookmark synchronization: the interval must be an
/// allowed one, and an account that cannot run subscriptions refuses the
/// change as stale.
pub fn check_bookmark_update(interval_minutes: i64, account_blocked: bool) -> (r: Result<(), DbError>)
    ensures
        !spec_allowed_interval(interval_minutes) ==> (r matches Err(e) && e matches DbError::InvalidValue(m)
            && m@ == "unsupported bookmark synchronization interval"@),
        spec_allowed_interval(interval_minutes) && account_blocked ==> r == Err::<(), DbError>(DbError::RevisionConflict),
        spec_allowed_interval(interval_minutes) && !account_blocked ==> r is Ok,
{
    if !allowed_sync_interval(interval_minutes) {
        return Err(DbError::InvalidValue(String::from_str("unsupported bookmark synchronization interval")));
    }
    if account_blocked {
        return Err(DbError::RevisionConflict);
    }
    Ok(())
}

/// Switching a disabled bookmark subscription on starts a full backfill.
pub fn needs_initial_backfill(enabled: bool, currently_enabled: bool, account_blocked: bool) -> (b: bool)
    ensures
        b == (enabled && !currently_enabled && !account_blocked),
{
    enabled && !currently_enabled && !account_blocked
}

/// What a subscription collects.
#[derive(Clone, Copy, Debug, PartialEq, Eq, Structural)]
pub enum SubscriptionKind {
    Ranking,
    Following,
    Bookmarks,
}

/// The following and bookmark subscriptions are managed from their own
/// pages, not as general subscriptions.
pub fn reject_fixed_subscription(kind: SubscriptionKind) -> (r: Result<(), DbError>)
    ensures
        r is Ok <==> kind == SubscriptionKind::Ranking,
        r matches Err(e) ==> e matches DbError::InvalidValue(m) && m@ == "the fixed subscription is managed from its dedicated page"@,
{
    match kind {
        SubscriptionKind::Following | SubscriptionKind::Bookmarks => Err(DbError::InvalidValue(
            String::from_str("the fixed subscription is managed from its dedicated page"),
        )),
        SubscriptionKind::Ranking => Ok(()),
    }
}

pub open spec fn strictly_increasing(s: Seq<u128>) -> bool {
    forall|i: int, j: int| 0 <= i < j < s.len() ==> s[i] < s[j]
}

/// The distinct ids, in increasing order.
pub fn sorted_unique_ids(ids: &Vec<u128>) -> (out: Vec<u128>)
    ensures
        strictly_increasing(out@),
        forall|x: u128| out@.contains(x) <==> ids@.contains(x),
{
    let mut out: Vec<u128> = Vec::new();
    let mut n: usize = 0;
    while n < ids.len()
        invariant
            n <= ids@.len(),
            strictly_increasing(out@),
            forall|x: u128| out@.contains(x) <==> ids@.take(n as int).contains(x),
        decreases ids.len() - n,
    {
        let id = ids[n];
        let mut j: usize = 0;
        while j < out.len() && out[j] < id
            invariant
                j <= out@.len(),
                forall|k: int| 0 <= k < j ==> out@[k] < id,
            decreases out.len() - j,
        {
            j = j + 1;
        }
        let ghost before = out@;
        let ghost pre = ids@.take(n as int);
        let ghost pre1 = ids@.take(n as int + 1);
        proof {
            assert(pre1 =~= pre.push(id));
        }
        if j < out.len() && out[j] == id {
            proof {
                assert forall|x: u128| out@.contains(x) <==> pre1.contains(x) by {
                    if pre1.contains(x) {
                        let i = choose|i: int| 0 <= i < pre1.len() && pre1[i] == x;
                        if i < n {
                            assert(pre[i] == x);
                        } else {
                            assert(out@[j as int] == x);
                        }
                    }
                    if out@.contains(x) {
                        let i = choose|i: int| 0 <= i < pre.len() && pre[i] == x;
                        assert(pre1[i] == x);
                    }
                }
            }
        } else {
            out.insert(j, id);
            proof {
                assert forall|a: int, b: int| 0 <= a < b < out@.len() implies out@[a] < out@[b] by {
                    if j < before.len() {
                        assert(before[j as int] > id);
                    }
                    if b < j {
                    } else if a < j && b == j {
                    } else if a < j && b > j {
                        assert(out@[b] == before[b - 1]);
                        if j < before.len() {
                            assert(before[j as int] <= before[b - 1]);
                        }
                    } else if a == j {
                        assert(out@[b] == before[b - 1]);
                        assert(before[j as int] <= before[b - 1]);
                    } else {
                        assert(out@[a] == before[a - 1]);
                        assert(out@[b] == before[b - 1]);
                    }
                }
                assert forall|x: u128| out@.contains(x) <==> pre1.contains(x) by {
                    if pre1.contains(x) {
                        let i = choose|i: int| 0 <= i < pre1.len() && pre1[i] == x;
                        if i < n {
                            assert(pre[i] == x);
                            assert(before.contains(x));
                            let k = choose|k: int| 0 <= k < before.len() && before[k] == x;
                            if k < j {
                                assert(out@[k] == x);
                            } else {
                                assert(out@[k + 1] == x);
                            }
                        } else {
                            assert(out@[j as int] == x);
                        }
                    }
                    if out@.contains(x) {
                        let k = choose|k: int| 0 <= k < out@.len() && out@[k] == x;
                        if k == j {
                            assert(pre1[n as int] == x);
                        } else {
                            if k < j {
                                assert(before[k] == x);
                            } else {
                                assert(before[k - 1] == x);
                            }
                            assert(before.contains(x));
                            let i = choose|i: int| 0 <= i < pre.len() && pre[i] == x;
                            assert(pre1[i] == x);
                        }
                    }
                }
            }
        }
        n = n + 1;
    }
    proof {
        assert(ids@.take(ids@.len() as int) =~= ids@);
    }
    out
}

/// How many ranking pages cover the wanted depth: the depth divided by the
/// page size, rounded up, and at least one.
pub fn ranking_max_page(max_rank: u32, page_size: u32) -> (pages: u32)
    requires
        page_size > 0,
    ensures
        pages as int == (if (max_rank as int + page_size - 1) / (page_size as int) >= 1 { (max_rank as int + page_size - 1) / (page_size as int) } else { 1 }),
{
    let q = max_rank / page_size;
    let r = max_rank % page_size;
    proof {
        assert(max_rank == q * page_size + r) by (nonlinear_arith)
            requires
                page_size > 0,
                q == max_rank / page_size,
                r == max_rank % page_size,
        ;
        if r != 0 {
            assert(q < u32::MAX) by (nonlinear_arith)
                requires
                    max_rank == q * page_size + r,
                    0 < r < page_size,
                    max_rank <= u32::MAX,
            ;
        }
    }
    let pages: u32 = if r == 0 { q } else { q + 1 };
    proof {
        assert((max_rank as int + page_size - 1) / (page_size as int) == pages as int) by (nonlinear_arith)
            requires
                page_size > 0,
                max_rank == q * page_size + r,
                0 <= r < page_size,
                pages as int == (if r == 0 { q as int } else { q as int + 1 }),
        ;
    }
    if pages >= 1 { pages } else { 1 }
}

/// What processing one discovered work means for its page.
#[derive(Clone, Copy, Debug, PartialEq, Eq, Structural)]
pub enum DiscoveryOutcome {
    Discovered,
    Ignored,
    /// A transient failure left for the next full synchronization.
    RetryLater,
    Abort(JobErrorClass),
}

pub open spec fn spec_discovery_outcome(result: Result<ProcessedPixivWork, PixivWorkProcessingError>, continue_after_transient: bool) -> DiscoveryOutcome {
    match result {
        Ok(ProcessedPixivWork::MetadataSaved { .. }) | Ok(ProcessedPixivWork::DownloadQueued { .. }) => DiscoveryOutcome::Discovered,
        Ok(_) => DiscoveryOutcome::Ignored,
        Err(e) => if e == PixivWorkProcessingError::Pixiv(JobErrorClass::Permanent) {
            DiscoveryOutcome::Ignored
        } else if continue_after_transient && (spec_processing_error_class(e) == JobErrorClass::Network
            || spec_processing_error_class(e) == JobErrorClass::Server || spec_processing_error_class(e) == JobErrorClass::RateLimit) {
            DiscoveryOutcome::RetryLater
        } else {
            DiscoveryOutcome::Abort(spec_processing_error_class(e))
        },
    }
}

/// A saved work is discovered; an ignored or blocked one, or one Pixiv
/// permanently refuses, is ignored; a transient failure is left for later
/// when the page allows it; any other failure aborts the page.
pub fn discovery_outcome(result: &Result<ProcessedPixivWork, PixivWorkProcessingError>, continue_after_transient: bool) -> (o: DiscoveryOutcome)
    ensures
        o == spec_discovery_outcome(*result, continue_after_transient),
{
    match result {
        Ok(ProcessedPixivWork::MetadataSaved { .. }) | Ok(ProcessedPixivWork::DownloadQueued { .. }) => DiscoveryOutcome::Discovered,
        Ok(_) => DiscoveryOutcome::Ignored,
        Err(e) => {
            if e.is_permanent_pixiv() {
                DiscoveryOutcome::Ignored
            } else {
                let class = e.error_class();
                if continue_after_transient && (class == JobErrorClass::Network || class == JobErrorClass::Server || class == JobErrorClass::RateLimit) {
                    DiscoveryOutcome::RetryLater
                } else {
                    DiscoveryOutcome::Abort(class)
                }
            }
        },
    }
}

/// The work ids of a discovery page to process: each work once, in order,
/// except those by artists that are not enabled (counted as filtered); the
/// third part is the set of works met so far.
pub open spec fn discovery_selection(items: Seq<(i64, i64)>, enabled: Option<Set<i64>>) -> (Seq<i64>, nat, Set<i64>)
    decreases items.len(),
{
    if items.len() == 0 {
        (Seq::empty(), 0, Set::empty())
    } else {
        let (kept, filtered, seen) = discovery_selection(items.drop_last(), enabled);
        let (work, artist) = items.last();
        if seen.contains(work) {
            (kept, filtered, seen)
        } else if (enabled matches Some(e) && !e.contains(artist)) {
            (kept, filtered + 1, seen.insert(work))
        } else {
            (kept.push(work), filtered, seen.insert(work))
        }
    }
}

pub fn select_discovery_items(items: &Vec<(i64, i64)>, enabled: Option<&HashSet<i64>>) -> (r: (Vec<i64>, u64))
    requires
        items@.len() <= u64::MAX,
    ensures
        r.0@ == discovery_selection(items@, match enabled { Some(e) => Some(e@), None => None }).0,
        r.1 == discovery_selection(items@, match enabled { Some(e) => Some(e@), None => None }).1,
{
    let ghost en = match enabled { Some(e) => Some(e@), None => None::<Set<i64>> };
    let mut kept: Vec<i64> = Vec::new();
    let mut seen: HashSet<i64> = HashSet::new();
    let mut filtered: u64 = 0;
    let mut i: usize = 0;
    while i < items.len()
        invariant
            i <= items@.len(),
            items@.len() <= u64::MAX,
            en == (match enabled { Some(e) => Some(e@), None => None::<Set<i64>> }),
            (kept@, filtered as nat, seen@) == discovery_selection(items@.take(i as int), en),
            filtered <= i,
        decreases items.len() - i,
    {
        proof {
            assert(items@.take(i as int + 1).drop_last() =~= items@.take(i as int));
            assert(items@.take(i as int + 1).last() == items@[i as int]);
        }
        let (work, artist) = items[i];
        if !seen.contains(&work) {
            let allowed = match enabled {
                Some(e) => e.contains(&artist),
                None => true,
            };
            if !allowed {
                filtered = filtered + 1;
            } else {
                kept.push(work);
            }
            seen.insert(work);
        }
        i = i + 1;
    }
    proof {
        assert(items@.take(items@.len() as int) =~= items@);
    }
    (kept, filtered)
}

/// Whether a following page is followed by another.
#[derive(Clone, Copy, Debug, PartialEq, Eq, Structural)]
pub enum FollowingPaging {
    Stop,
    Next(u32),
    /// The cursor did not move forward.
    Fail,
}

/// After a page of new works from followed artists: stop at the page
/// limit (incremental runs) or without a cursor; a cursor must move
/// forward.
pub fn following_paging(page: u32, page_limit: Option<u32>, next_page: Option<u32>) -> (p: FollowingPaging)
    ensures
        p == (if (page_limit matches Some(l) && page >= l) {
            FollowingPaging::Stop
        } else {
            match next_page {
                None => FollowingPaging::Stop,
                Some(n) => if n <= page { FollowingPaging::Fail } else { FollowingPaging::Next(n) },
            }
        }),
{
    match page_limit {
        Some(l) => if page >= l {
            return FollowingPaging::Stop;
        },
        None => {},
    }
    match next_page {
        None => FollowingPaging::Stop,
        Some(n) => if n <= page { FollowingPaging::Fail } else { FollowingPaging::Next(n) },
    }
}

/// A bookmark collection reconciles fully for a backfill, when it never
/// did, or when the last full pass is at least `full_reconcile_hours`
/// (default 24, when unset or not positive) old.
pub fn bookmarks_full_sync(backfill: bool, seconds_since_last_full: Option<i64>, full_reconcile_hours: Option<i64>) -> (full: bool)
    requires
        full_reconcile_hours matches Some(h) ==> h * 3600 <= i64::MAX,
    ensures
        full == (backfill || match seconds_since_last_full {
            None => true,
            Some(s) => s >= (match full_reconcile_hours { Some(h) => if h > 0 { h } else { 24 }, None => 24 }) * 3600,
        }),
{
    let hours: i64 = match full_reconcile_hours {
        Some(h) => if h > 0 { h } else { 24 },
        None => 24,
    };
    backfill || match seconds_since_last_full {
        None => true,
        Some(s) => s >= hours * 3600,
    }
}

/// After a bookmark page: an incremental pass stops after its page count;
/// otherwise the pass follows the cursor to the end.
pub fn bookmarks_continue(full: bool, pages_read: u32, incremental_pages: u32, next_offset: Option<u64>) -> (next: Option<u64>)
    ensures
        next == (if !full && pages_read >= incremental_pages { None } else { next_offset }),
{
    if !full && pages_read >= incremental_pages {
        None
    } else {
        next_offset
    }
}


/// After a bookmark unit's pages were read and its works processed: the
/// stored bookmarks are reconciled with everything Pixiv listed only after
/// a full pass in which no work was left for a later retry, since a work
/// left aside would otherwise drop out of the stored list. The unit's
/// cursor records the same answer as its `full_reconcile`.
pub fn bookmarks_reconcile(full: bool, retry_pending: bool) -> (reconcile: bool)
    ensures
        reconcile == (full && !retry_pending),
{
    full && !retry_pending
}

} // verus!
