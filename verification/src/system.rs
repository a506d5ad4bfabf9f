//! System status reporting: component health, storage capacity, the media
//! usage scan cache and the maintenance operations an administrator can queue.

use vstd::prelude::*;
use crate::text::str_eq;

verus! {

/// Health of one component, with an explanation when it is unavailable.
#[derive(Clone, Debug, PartialEq, Eq)]
pub struct ComponentStatus {
    pub status: String,
    pub message: Option<String>,
}

#[derive(Clone, Copy, Debug, PartialEq, Eq, Structural)]
pub struct SystemCapabilities {
    pub webp_derivatives: bool,
    pub avif_derivatives: bool,
    pub reflink: bool,
}

impl Default for SystemCapabilities {
    fn default() -> (c: Self)
        ensures
            !c.webp_derivatives && !c.avif_derivatives && !c.reflink,
    {
        SystemCapabilities { webp_derivatives: false, avif_derivatives: false, reflink: false }
    }
}

#[derive(Clone, Debug, PartialEq, Eq)]
pub struct StorageStatus {
    pub active_media_root: String,
    pub total_bytes: u64,
    pub available_bytes: u64,
    pub warning_threshold_bytes: u64,
    pub write_stop_threshold_bytes: u64,
    pub write_stopped: bool,
}

#[derive(Clone, Copy, Debug, PartialEq, Eq, Structural)]
pub struct MediaUsage {
    pub media_directory_bytes: u64,
}

#[derive(Clone, Copy, Debug, PartialEq, Eq, Structural)]
pub struct StorageCapacity {
    pub total_bytes: u64,
    pub available_bytes: u64,
}

/// The status overview shown to the administrator. The queue counts are
/// given per job kind and state; setting revisions per group name.
#[derive(Clone, Debug)]
pub struct SystemStatus {
    pub version: String,
    pub git_commit: Option<String>,
    pub migration_version: i64,
    pub database: ComponentStatus,
    pub media: ComponentStatus,
    pub worker: ComponentStatus,
    pub queue: Vec<(String, Vec<(String, i64)>)>,
    pub setting_revisions: Vec<(String, i64)>,
    pub storage: StorageStatus,
    pub capabilities: SystemCapabilities,
}

pub fn healthy() -> (status: ComponentStatus)
    ensures
        status.status@ == "healthy"@,
        status.message is None,
{
    ComponentStatus { status: String::from_str("healthy"), message: None }
}

fn unavailable(message: &str) -> (status: ComponentStatus)
    ensures
        status.status@ == "unavailable"@,
        status.message matches Some(m) && m@ == message@,
{
    ComponentStatus { status: String::from_str("unavailable"), message: Some(String::from_str(message)) }
}

/// What the last worker heartbeat says about the worker.
#[derive(Clone, Copy, Debug, PartialEq, Eq, Structural)]
pub enum WorkerHeartbeatState {
    Missing,
    Stale,
    Online,
}

/// A heartbeat is current when it was seen within the last ninety seconds.
pub open spec fn spec_heartbeat_state(last_seen_at: Option<i64>, now: i64) -> WorkerHeartbeatState {
    match last_seen_at {
        None => WorkerHeartbeatState::Missing,
        Some(seen) => if now - seen <= 90 { WorkerHeartbeatState::Online } else { WorkerHeartbeatState::Stale },
    }
}

/// Classifies the latest heartbeat (seconds since the epoch) at time `now`.
pub fn heartbeat_state(last_seen_at: Option<i64>, now: i64) -> (state: WorkerHeartbeatState)
    ensures
        state == spec_heartbeat_state(last_seen_at, now),
{
    match last_seen_at {
        None => WorkerHeartbeatState::Missing,
        Some(seen) => {
            if (now as i128) - (seen as i128) <= 90 {
                WorkerHeartbeatState::Online
            } else {
                WorkerHeartbeatState::Stale
            }
        },
    }
}

/// The worker component: healthy when its heartbeat is current, otherwise
/// unavailable with the reason.
pub fn worker_status(heartbeat: WorkerHeartbeatState) -> (status: ComponentStatus)
    ensures
        heartbeat == WorkerHeartbeatState::Online <==> status.status@ == "healthy"@,
        heartbeat == WorkerHeartbeatState::Online ==> status.message is None,
        heartbeat == WorkerHeartbeatState::Stale ==> status.status@ == "unavailable"@
            && (status.message matches Some(m) && m@ == "工作进程已断开"@),
        heartbeat == WorkerHeartbeatState::Missing ==> status.status@ == "unavailable"@
            && (status.message matches Some(m) && m@ == "工作进程尚未连接"@),
{
    proof {
        reveal_strlit("healthy");
        reveal_strlit("unavailable");
        assert("unavailable"@.len() != "healthy"@.len());
    }
    match heartbeat {
        WorkerHeartbeatState::Online => healthy(),
        WorkerHeartbeatState::Stale => unavailable("工作进程已断开"),
        WorkerHeartbeatState::Missing => unavailable("工作进程尚未连接"),
    }
}

/// What reading the media root's metadata found.
#[derive(Clone, Copy, Debug, PartialEq, Eq, Structural)]
pub enum MediaRootProbe {
    Directory,
    NotDirectory,
    Unreadable,
}

/// The media component: healthy for a readable directory, otherwise
/// unavailable with the reason.
pub fn media_status(probe: MediaRootProbe) -> (status: ComponentStatus)
    ensures
        probe == MediaRootProbe::Directory <==> status.status@ == "healthy"@,
        probe == MediaRootProbe::Directory ==> status.message is None,
        probe == MediaRootProbe::NotDirectory ==> status.status@ == "unavailable"@
            && (status.message matches Some(m) && m@ == "配置的媒体路径不是目录"@),
        probe == MediaRootProbe::Unreadable ==> status.status@ == "unavailable"@
            && (status.message matches Some(m) && m@ == "无法访问媒体目录"@),
{
    proof {
        reveal_strlit("healthy");
        reveal_strlit("unavailable");
        assert("unavailable"@.len() != "healthy"@.len());
    }
    match probe {
        MediaRootProbe::Directory => healthy(),
        MediaRootProbe::NotDirectory => unavailable("配置的媒体路径不是目录"),
        MediaRootProbe::Unreadable => unavailable("无法访问媒体目录"),
    }
}

/// `a * b`, or `u64::MAX` when the product does not fit.
pub open spec fn spec_saturating_mul(a: u64, b: u64) -> u64 {
    if a * b > u64::MAX { u64::MAX } else { (a * b) as u64 }
}

/// `a + b`, or `u64::MAX` when the sum does not fit.
pub open spec fn spec_saturating_add(a: u64, b: u64) -> u64 {
    if a + b > u64::MAX { u64::MAX } else { (a + b) as u64 }
}

pub fn saturating_mul(a: u64, b: u64) -> (p: u64)
    ensures
        p == spec_saturating_mul(a, b),
{
    match a.checked_mul(b) {
        Some(p) => p,
        None => u64::MAX,
    }
}

/// Capacity of a filesystem from its block counts and fragment size.
pub fn capacity_from_blocks(blocks: u64, available_blocks: u64, fragment_size: u64) -> (c: StorageCapacity)
    ensures
        c.total_bytes == spec_saturating_mul(blocks, fragment_size),
        c.available_bytes == spec_saturating_mul(available_blocks, fragment_size),
{
    StorageCapacity {
        total_bytes: saturating_mul(blocks, fragment_size),
        available_bytes: saturating_mul(available_blocks, fragment_size),
    }
}

/// Writing stops once the free space is at or below the stop threshold.
pub open spec fn spec_write_stopped(available_bytes: u64, stop_threshold_bytes: u64) -> bool {
    available_bytes <= stop_threshold_bytes
}

pub fn storage_status(
    active_media_root: String,
    capacity: StorageCapacity,
    warning_threshold_bytes: u64,
    write_stop_threshold_bytes: u64,
) -> (s: StorageStatus)
    ensures
        s.active_media_root@ == active_media_root@,
        s.total_bytes == capacity.total_bytes,
        s.available_bytes == capacity.available_bytes,
        s.warning_threshold_bytes == warning_threshold_bytes,
        s.write_stop_threshold_bytes == write_stop_threshold_bytes,
        s.write_stopped == spec_write_stopped(capacity.available_bytes, write_stop_threshold_bytes),
{
    StorageStatus {
        active_media_root,
        total_bytes: capacity.total_bytes,
        available_bytes: capacity.available_bytes,
        warning_threshold_bytes,
        write_stop_threshold_bytes,
        write_stopped: capacity.available_bytes <= write_stop_threshold_bytes,
    }
}

/// The saturating sum of file sizes.
pub open spec fn spec_total_size(sizes: Seq<u64>) -> u64
    decreases sizes.len(),
{
    if sizes.len() == 0 {
        0
    } else {
        spec_saturating_add(spec_total_size(sizes.drop_last()), sizes.last())
    }
}

/// Adds up the sizes of the regular files found under the media root;
/// the total stops at `u64::MAX` rather than wrapping.
pub fn total_size(sizes: &Vec<u64>) -> (total: u64)
    ensures
        total == spec_total_size(sizes@),
{
    let mut total: u64 = 0;
    let mut i: usize = 0;
    while i < sizes.len()
        invariant
            i <= sizes@.len(),
            total == spec_total_size(sizes@.take(i as int)),
        decreases sizes.len() - i,
    {
        assert(sizes@.take(i as int + 1).drop_last() =~= sizes@.take(i as int));
        total = total.saturating_add(sizes[i]);
        i = i + 1;
    }
    assert(sizes@.take(sizes@.len() as int) =~= sizes@);
    total
}

/// The total is exact whenever it fits.
pub proof fn lemma_total_size_exact(sizes: Seq<u64>)
    ensures
        spec_total_size(sizes) <= u64::MAX,
        spec_total_size(sizes) < u64::MAX ==> spec_total_size(sizes) == spec_exact_total(sizes),
    decreases sizes.len(),
{
    if sizes.len() > 0 {
        lemma_total_size_exact(sizes.drop_last());
        lemma_exact_total_monotone(sizes);
    }
}

/// The mathematical sum of file sizes.
pub open spec fn spec_exact_total(sizes: Seq<u64>) -> int
    decreases sizes.len(),
{
    if sizes.len() == 0 { 0 } else { spec_exact_total(sizes.drop_last()) + sizes.last() }
}

proof fn lemma_exact_total_monotone(sizes: Seq<u64>)
    requires
        sizes.len() > 0,
    ensures
        spec_exact_total(sizes) >= spec_exact_total(sizes.drop_last()),
{
}

/// Maintenance work an administrator can request.
#[derive(Clone, Copy, Debug, PartialEq, Eq, Structural)]
pub enum MaintenanceOperation {
    RegenerateDerivatives,
    ScanExpiredTrash,
}

pub open spec fn maintenance_operation_name(op: MaintenanceOperation) -> Seq<char> {
    match op {
        MaintenanceOperation::RegenerateDerivatives => "regenerate_derivatives"@,
        MaintenanceOperation::ScanExpiredTrash => "scan_expired_trash"@,
    }
}

pub open spec fn spec_parse_maintenance_operation(value: Seq<char>) -> Option<MaintenanceOperation> {
    if value == "regenerate_derivatives"@ {
        Some(MaintenanceOperation::RegenerateDerivatives)
    } else if value == "scan_expired_trash"@ {
        Some(MaintenanceOperation::ScanExpiredTrash)
    } else {
        None
    }
}

impl MaintenanceOperation {
    pub fn parse(value: &str) -> (op: Option<Self>)
        ensures
            op == spec_parse_maintenance_operation(value@),
    {
        if str_eq(value, "regenerate_derivatives") {
            Some(MaintenanceOperation::RegenerateDerivatives)
        } else if str_eq(value, "scan_expired_trash") {
            Some(MaintenanceOperation::ScanExpiredTrash)
        } else {
            None
        }
    }

    pub fn as_str(self) -> (name: &'static str)
        ensures
            name@ == maintenance_operation_name(self),
    {
        match self {
            MaintenanceOperation::RegenerateDerivatives => "regenerate_derivatives",
            MaintenanceOperation::ScanExpiredTrash => "scan_expired_trash",
        }
    }
}

/// Every operation's name parses back to the operation.
pub proof fn lemma_maintenance_operation_round_trip(op: MaintenanceOperation)
    ensures
        spec_parse_maintenance_operation(maintenance_operation_name(op)) == Some(op),
{
    reveal_strlit("regenerate_derivatives");
    reveal_strlit("scan_expired_trash");
    assert("regenerate_derivatives"@[0] != "scan_expired_trash"@[0]);
}

/// Whatever parses is the name of the operation it parses to.
pub proof fn lemma_maintenance_operation_parse_inverse(value: Seq<char>)
    ensures
        spec_parse_maintenance_operation(value) matches Some(op) ==> maintenance_operation_name(op) == value,
{
}


/// How long a measured media usage stays valid, in milliseconds.
pub const MEDIA_USAGE_CACHE_TTL_MS: u64 = 15000;

/// A completed measurement and when it was taken (milliseconds of a monotonic clock).
#[derive(Clone, Copy, Debug, PartialEq, Eq, Structural)]
pub struct MediaUsageCache {
    pub bytes: u64,
    pub measured_at_ms: u64,
}

/// What a caller asking for the media usage has to do.
#[derive(Clone, Copy, Debug, PartialEq, Eq, Structural)]
pub enum MeasureAction {
    /// Answer at once with the cached size.
    Cached(u64),
    /// Start the one scan and wait for its result.
    StartScanAndWait,
    /// A scan is already running; wait for its result.
    Wait,
}

/// Shared state of the media usage measurement: a cache, whether a scan is
/// running, and how many callers wait for it. Every waiter is answered by
/// the running scan, so no caller waits without one.
#[derive(Debug)]
pub struct MediaUsageState {
    cache: Option<MediaUsageCache>,
    scan_running: bool,
    waiters: u64,
}

/// The cache answers a request when it was measured less than the TTL ago.
pub open spec fn spec_cache_fresh(cache: Option<MediaUsageCache>, now_ms: u64) -> bool {
    cache matches Some(c) && (if now_ms >= c.measured_at_ms { now_ms - c.measured_at_ms } else { 0 }) < MEDIA_USAGE_CACHE_TTL_MS
}

impl MediaUsageState {
    #[verifier::type_invariant]
    spec fn wf(self) -> bool {
        self.waiters > 0 ==> self.scan_running
    }

    pub closed spec fn cache(&self) -> Option<MediaUsageCache> {
        self.cache
    }

    pub closed spec fn scan_running(&self) -> bool {
        self.scan_running
    }

    pub closed spec fn waiters(&self) -> nat {
        self.waiters as nat
    }

    pub fn new() -> (s: Self)
        ensures
            s.cache() is None,
            !s.scan_running(),
            s.waiters() == 0,
    {
        MediaUsageState { cache: None, scan_running: false, waiters: 0 }
    }

    /// Every caller that waits has a scan running that will answer it.
    pub fn waiters_have_a_scan(&self) -> (b: bool)
        ensures
            b == (self.waiters() > 0 ==> self.scan_running()),
            b,
    {
        proof {
            use_type_invariant(self);
        }
        self.waiters == 0 || self.scan_running
    }

    /// A request for the media usage at time `now_ms`: answered from a fresh
    /// cache, otherwise the caller waits and at most one scan is started.
    pub fn measure(&mut self, now_ms: u64) -> (action: MeasureAction)
        requires
            old(self).waiters() < u64::MAX,
        ensures
            spec_cache_fresh(old(self).cache(), now_ms) ==> action == MeasureAction::Cached(old(self).cache()->0.bytes)
                && final(self).cache() == old(self).cache()
                && final(self).scan_running() == old(self).scan_running()
                && final(self).waiters() == old(self).waiters(),
            !spec_cache_fresh(old(self).cache(), now_ms) ==> final(self).waiters() == old(self).waiters() + 1
                && final(self).scan_running()
                && final(self).cache() == old(self).cache()
                && action == (if old(self).scan_running() { MeasureAction::Wait } else { MeasureAction::StartScanAndWait }),
    {
        proof {
            use_type_invariant(&*self);
        }
        match self.cache {
            Some(cached) => {
                let elapsed: u64 = if now_ms >= cached.measured_at_ms { now_ms - cached.measured_at_ms } else { 0 };
                if elapsed < MEDIA_USAGE_CACHE_TTL_MS {
                    return MeasureAction::Cached(cached.bytes);
                }
            },
            None => {},
        }
        let was_running = self.scan_running;
        *self = MediaUsageState { cache: self.cache, scan_running: true, waiters: self.waiters + 1 };
        if was_running {
            MeasureAction::Wait
        } else {
            MeasureAction::StartScanAndWait
        }
    }

    /// The scan finished: a successful size replaces the cache, and every
    /// waiting caller receives the result. Returns how many callers to answer.
    pub fn finish_scan(&mut self, result: Option<u64>, now_ms: u64) -> (answered: u64)
        ensures
            answered == old(self).waiters(),
            final(self).waiters() == 0,
            !final(self).scan_running(),
            final(self).cache() == (match result {
                Some(bytes) => Some(MediaUsageCache { bytes, measured_at_ms: now_ms }),
                None => old(self).cache(),
            }),
    {
        let answered = self.waiters;
        let cache = match result {
            Some(bytes) => Some(MediaUsageCache { bytes, measured_at_ms: now_ms }),
            None => self.cache,
        };
        *self = MediaUsageState { cache, scan_running: false, waiters: 0 };
        answered
    }
}

/// A caller that arrives while the scan runs is answered by that same scan,
/// and once the scan succeeded the next request within the TTL is answered
/// from the cache without a new scan.
pub proof fn lemma_scan_result_is_shared(bytes: u64, finished_ms: u64, later_ms: u64)
    requires
        finished_ms <= later_ms,
        later_ms - finished_ms < MEDIA_USAGE_CACHE_TTL_MS,
    ensures
        spec_cache_fresh(Some(MediaUsageCache { bytes, measured_at_ms: finished_ms }), later_ms),
{
}

} // verus!
