//! Media jobs: downloading a work's files, generating derivatives, and how
//! their failures are classified. The storage, Pixiv and file system calls
//! are made by the caller; the decisions between them are stated here.

use vstd::prelude::*;
use crate::domain::{DbError, JobErrorClass, PixivErrorClass};
use crate::jobs::{database_error_class, pixiv_error_class, spec_database_error_class, spec_pixiv_error_class};
use crate::text::str_eq;

verus! {

/// The kinds of stored media.
#[derive(Clone, Copy, Debug, PartialEq, Eq, Structural)]
pub enum MediaKind {
    SourceImage,
    UgoiraZip,
    Derivative,
}

/// A failed download job, with the message shown for it.
#[derive(Clone, Debug, PartialEq, Eq)]
pub struct MediaFailure {
    pub error_class: JobErrorClass,
    pub retry_after_seconds: Option<i64>,
    pub message: String,
}

/// How the media store failed to ingest a download.
#[derive(Clone, Copy, Debug, PartialEq, Eq, Structural)]
pub enum StorageErrorKind {
    /// The response stream broke off.
    Stream,
    /// The storage itself failed.
    Storage,
    /// The data was refused (size, type, checksum, layout).
    Rejected,
}

impl MediaFailure {
    pub fn permanent(message: String) -> (f: Self)
        ensures
            f == (MediaFailure { error_class: JobErrorClass::Permanent, retry_after_seconds: None, message }),
    {
        MediaFailure { error_class: JobErrorClass::Permanent, retry_after_seconds: None, message }
    }

    pub fn server(message: String) -> (f: Self)
        ensures
            f == (MediaFailure { error_class: JobErrorClass::Server, retry_after_seconds: None, message }),
    {
        MediaFailure { error_class: JobErrorClass::Server, retry_after_seconds: None, message }
    }

    /// A storage failure: server-side and rate-limit classes are kept,
    /// every other class becomes permanent.
    pub fn database(error: &DbError, message: String) -> (f: Self)
        ensures
            f.message == message,
            f.retry_after_seconds is None,
            f.error_class == (match spec_database_error_class(*error) {
                JobErrorClass::Server => JobErrorClass::Server,
                JobErrorClass::RateLimit => JobErrorClass::RateLimit,
                _ => JobErrorClass::Permanent,
            }),
    {
        match database_error_class(error) {
            JobErrorClass::Server => MediaFailure::server(message),
            JobErrorClass::RateLimit => MediaFailure { error_class: JobErrorClass::RateLimit, retry_after_seconds: None, message },
            _ => MediaFailure::permanent(message),
        }
    }

    /// A failed Pixiv request keeps its class and retry delay.
    pub fn pixiv(class: PixivErrorClass, retry_after_seconds: Option<i64>, message: String) -> (f: Self)
        ensures
            f == (MediaFailure { error_class: spec_pixiv_error_class(class), retry_after_seconds, message }),
    {
        MediaFailure { error_class: pixiv_error_class(class), retry_after_seconds, message }
    }

    /// A broken stream is a network failure, a storage failure is
    /// server-side, refused data is permanent.
    pub fn storage(kind: StorageErrorKind, message: String) -> (f: Self)
        ensures
            f.message == message,
            f.retry_after_seconds is None,
            f.error_class == (match kind {
                StorageErrorKind::Stream => JobErrorClass::Network,
                StorageErrorKind::Storage => JobErrorClass::Server,
                StorageErrorKind::Rejected => JobErrorClass::Permanent,
            }),
    {
        match kind {
            StorageErrorKind::Stream => MediaFailure { error_class: JobErrorClass::Network, retry_after_seconds: None, message },
            StorageErrorKind::Storage => MediaFailure::server(message),
            StorageErrorKind::Rejected => MediaFailure::permanent(message),
        }
    }
}

/// The failure class of a media processing job.
#[derive(Clone, Copy, Debug, PartialEq, Eq, Structural)]
pub struct MediaProcessingFailure {
    pub error_class: JobErrorClass,
}

/// How a media path failed to resolve.
#[derive(Clone, Copy, Debug, PartialEq, Eq, Structural)]
pub enum MediaPathErrorKind {
    Io,
    Worker,
    Invalid,
}

/// How extracting an ugoira frame failed.
#[derive(Clone, Copy, Debug, PartialEq, Eq, Structural)]
pub enum UgoiraErrorKind {
    Archive,
    Invalid,
}

/// Why a processing source could not be prepared.
#[derive(Clone, Copy, Debug, PartialEq, Eq, Structural)]
pub enum PrepareSourceError {
    MissingUgoiraMetadata,
    UnsupportedMediaKind,
    UnsupportedFrame,
    Worker,
    MediaPath(MediaPathErrorKind),
    Ugoira(UgoiraErrorKind),
}

/// How the derivative generator failed.
#[derive(Clone, Copy, Debug, PartialEq, Eq, Structural)]
pub enum DerivativeErrorKind {
    Process,
    Storage,
    Rejected,
}

pub open spec fn spec_processing_database_class(error: DbError) -> JobErrorClass {
    match error {
        DbError::Connection(_) | DbError::Query(_) | DbError::LeaseConflict | DbError::RevisionConflict => JobErrorClass::Server,
        _ => JobErrorClass::Permanent,
    }
}

pub open spec fn spec_prepare_source_class(error: PrepareSourceError) -> JobErrorClass {
    match error {
        PrepareSourceError::Worker
        | PrepareSourceError::MediaPath(MediaPathErrorKind::Io)
        | PrepareSourceError::MediaPath(MediaPathErrorKind::Worker)
        | PrepareSourceError::Ugoira(UgoiraErrorKind::Archive) => JobErrorClass::Server,
        _ => JobErrorClass::Permanent,
    }
}

impl MediaProcessingFailure {
    pub fn permanent() -> (f: Self)
        ensures
            f.error_class == JobErrorClass::Permanent,
    {
        MediaProcessingFailure { error_class: JobErrorClass::Permanent }
    }

    pub fn server() -> (f: Self)
        ensures
            f.error_class == JobErrorClass::Server,
    {
        MediaProcessingFailure { error_class: JobErrorClass::Server }
    }

    pub fn error_class(&self) -> (c: JobErrorClass)
        ensures
            c == self.error_class,
    {
        self.error_class
    }

    /// Connection, query and conflict failures are server-side; the rest
    /// are permanent.
    pub fn database(error: &DbError) -> (f: Self)
        ensures
            f.error_class == spec_processing_database_class(*error),
    {
        match error {
            DbError::Connection(_) | DbError::Query(_) | DbError::LeaseConflict | DbError::RevisionConflict => MediaProcessingFailure::server(),
            _ => MediaProcessingFailure::permanent(),
        }
    }

    /// I/O and worker failures and broken archives are server-side; missing
    /// or unsupported data is permanent.
    pub fn prepare_source(error: PrepareSourceError) -> (f: Self)
        ensures
            f.error_class == spec_prepare_source_class(error),
    {
        match error {
            PrepareSourceError::Worker
            | PrepareSourceError::MediaPath(MediaPathErrorKind::Io)
            | PrepareSourceError::MediaPath(MediaPathErrorKind::Worker)
            | PrepareSourceError::Ugoira(UgoiraErrorKind::Archive) => MediaProcessingFailure::server(),
            _ => MediaProcessingFailure::permanent(),
        }
    }

    pub fn derivative(error: DerivativeErrorKind) -> (f: Self)
        ensures
            f.error_class == (if error == DerivativeErrorKind::Rejected { JobErrorClass::Permanent } else { JobErrorClass::Server }),
    {
        match error {
            DerivativeErrorKind::Process | DerivativeErrorKind::Storage => MediaProcessingFailure::server(),
            DerivativeErrorKind::Rejected => MediaProcessingFailure::permanent(),
        }
    }
}

pub open spec fn spec_frame_extension(content_type: Seq<char>) -> Option<Seq<char>> {
    if content_type == "image/jpeg"@ {
        Some("jpg"@)
    } else if content_type == "image/png"@ {
        Some("png"@)
    } else {
        None
    }
}

/// The file extension for an ugoira frame's content type; only JPEG and
/// PNG frames can be extracted.
pub fn frame_extension(content_type: &str) -> (e: Option<&'static str>)
    ensures
        e matches Some(x) ==> spec_frame_extension(content_type@) == Some(x@),
        e is None <==> spec_frame_extension(content_type@) is None,
{
    if str_eq(content_type, "image/jpeg") {
        Some("jpg")
    } else if str_eq(content_type, "image/png") {
        Some("png")
    } else {
        None
    }
}

/// The file a derivative is generated from: the stored original, or a
/// temporary file holding an ugoira's first frame.
#[derive(Clone, Debug, PartialEq, Eq)]
pub enum PreparedMediaSource {
    Original { path: String },
    Temporary { path: String },
}

impl PreparedMediaSource {
    pub fn path(&self) -> (p: &str)
        ensures
            p@ == (match self {
                PreparedMediaSource::Original { path } => path@,
                PreparedMediaSource::Temporary { path } => path@,
            }),
    {
        match self {
            PreparedMediaSource::Original { path } => path.as_str(),
            PreparedMediaSource::Temporary { path } => path.as_str(),
        }
    }
}

/// One file of a download plan, as far as the job decides on it.
#[derive(Clone, Copy, Debug, PartialEq, Eq, Structural)]
pub struct DownloadItemState {
    /// The job that downloaded the page's current revision, if it has one
    /// (`Some(None)` for a current revision of no known job).
    pub current_download_job: Option<Option<u128>>,
}

/// An item is still pending unless this very job already stored it.
pub open spec fn item_pending(item: DownloadItemState, job_id: u128) -> bool {
    match item.current_download_job {
        None => true,
        Some(j) => j != Some(job_id),
    }
}

/// The positions of the items the job still has to download, in plan
/// order.
pub fn pending_items(items: &Vec<DownloadItemState>, job_id: u128) -> (pending: Vec<usize>)
    ensures
        pending@ == Seq::new(items@.len(), |i: int| i).filter(|i: int| item_pending(items@[i], job_id)).map_values(|i: int| i as usize),
{
    let ghost all = Seq::new(items@.len(), |i: int| i);
    let mut pending: Vec<usize> = Vec::new();
    let mut i: usize = 0;
    while i < items.len()
        invariant
            i <= items@.len(),
            all == Seq::new(items@.len(), |k: int| k),
            pending@ == all.take(i as int).filter(|k: int| item_pending(items@[k], job_id)).map_values(|k: int| k as usize),
        decreases items.len() - i,
    {
        let item = items[i];
        let keep = match item.current_download_job {
            None => true,
            Some(j) => match j {
                Some(owner) => owner != job_id,
                None => true,
            },
        };
        proof {
            assert(all.take(i as int + 1) =~= all.take(i as int).push(i as int));
            all.take(i as int).lemma_filter_push(i as int, |k: int| item_pending(items@[k], job_id));
        }
        if keep {
            pending.push(i);
        }
        i = i + 1;
        proof {
            assert(pending@ =~= all.take(i as int).filter(|k: int| item_pending(items@[k], job_id)).map_values(|k: int| k as usize));
        }
    }
    assert(all.take(items@.len() as int) =~= all);
    pending
}

/// The failures a media job decides on itself, each with its class and
/// message.
#[derive(Clone, Copy, Debug, PartialEq, Eq, Structural)]
pub enum MediaFailureReason {
    InvalidPayload,
    InvalidWorkId,
    PlanMismatch,
    StorageStatusUnavailable,
    UnsupportedKind,
    PathUnavailable,
    MissingUgoiraManifest,
    CurrentFileUnreadable,
    RedundantFileNotRemoved,
    DeduplicationStopped,
}

pub open spec fn reason_class(reason: MediaFailureReason) -> JobErrorClass {
    match reason {
        MediaFailureReason::StorageStatusUnavailable | MediaFailureReason::CurrentFileUnreadable
        | MediaFailureReason::RedundantFileNotRemoved | MediaFailureReason::DeduplicationStopped => JobErrorClass::Server,
        _ => JobErrorClass::Permanent,
    }
}

pub open spec fn reason_text(reason: MediaFailureReason) -> Seq<char> {
    match reason {
        MediaFailureReason::InvalidPayload => "下载任务参数无法读取"@,
        MediaFailureReason::InvalidWorkId => "Pixiv作品ID无效"@,
        MediaFailureReason::PlanMismatch => "下载任务与作品记录不一致"@,
        MediaFailureReason::StorageStatusUnavailable => "存储状态暂时无法读取"@,
        MediaFailureReason::UnsupportedKind => "媒体类型无法下载"@,
        MediaFailureReason::PathUnavailable => "媒体保存路径无法生成"@,
        MediaFailureReason::MissingUgoiraManifest => "动图帧清单缺失"@,
        MediaFailureReason::CurrentFileUnreadable => "媒体文件状态暂时无法读取"@,
        MediaFailureReason::RedundantFileNotRemoved => "多余媒体文件无法清理"@,
        MediaFailureReason::DeduplicationStopped => "媒体去重任务意外终止"@,
    }
}

fn reason_message(reason: MediaFailureReason) -> (m: &'static str)
    ensures
        m@ == reason_text(reason),
{
    match reason {
        MediaFailureReason::InvalidPayload => "下载任务参数无法读取",
        MediaFailureReason::InvalidWorkId => "Pixiv作品ID无效",
        MediaFailureReason::PlanMismatch => "下载任务与作品记录不一致",
        MediaFailureReason::StorageStatusUnavailable => "存储状态暂时无法读取",
        MediaFailureReason::UnsupportedKind => "媒体类型无法下载",
        MediaFailureReason::PathUnavailable => "媒体保存路径无法生成",
        MediaFailureReason::MissingUgoiraManifest => "动图帧清单缺失",
        MediaFailureReason::CurrentFileUnreadable => "媒体文件状态暂时无法读取",
        MediaFailureReason::RedundantFileNotRemoved => "多余媒体文件无法清理",
        MediaFailureReason::DeduplicationStopped => "媒体去重任务意外终止",
    }
}

impl MediaFailureReason {
    /// The failure reported for this reason.
    pub fn failure(self) -> (f: MediaFailure)
        ensures
            f.error_class == reason_class(self),
            f.retry_after_seconds is None,
            f.message@ == reason_text(self),
    {
        let message = String::from_str(reason_message(self));
        match self {
            MediaFailureReason::StorageStatusUnavailable | MediaFailureReason::CurrentFileUnreadable
            | MediaFailureReason::RedundantFileNotRemoved | MediaFailureReason::DeduplicationStopped => MediaFailure::server(message),
            _ => MediaFailure::permanent(message),
        }
    }
}

/// Whether the media volume still takes writes.
#[derive(Clone, Copy, Debug, PartialEq, Eq, Structural)]
pub enum StorageWriteStatus {
    Allowed,
    Stopped,
}

/// How a media job ended when it did not fail.
#[derive(Clone, Copy, Debug, PartialEq, Eq, Structural)]
pub enum MediaExecutionStatus {
    Finalized,
    WaitingStorage,
}

/// Where a download job stands.
#[derive(Clone, Copy, Debug, PartialEq, Eq, Structural)]
pub enum DownloadJobPhase {
    ReadingPayload,
    LoadingPlan { pixiv_work_id: i64 },
    LoadingContext { pending: usize },
    CompletingJob,
    CheckingStorage { next: usize, count: usize },
    Downloading { next: usize, count: usize },
    Finished,
}

/// What the last call reported.
#[derive(Clone, Debug, PartialEq, Eq)]
pub enum DownloadJobEvent {
    PayloadRead { pixiv_work_id: i64 },
    PayloadInvalid,
    /// The plan was loaded; `pending` items of it remain for this job.
    PlanLoaded { pixiv_work_id: i64, pending: usize },
    ContextReady,
    JobCompleted,
    StorageStatus(StorageWriteStatus),
    StorageStatusUnavailable,
    ItemDownloaded,
    CallFailed(MediaFailure),
}

/// The next call to make, or how the job ended.
#[derive(Debug, PartialEq, Eq)]
pub enum DownloadJobAction {
    ReadPayload,
    LoadPlan,
    LoadContext,
    CompleteJob,
    CheckStorage,
    /// Download the pending item at this position; the last one also
    /// completes the job.
    DownloadItem { index: usize, complete_job: bool },
    Fail(MediaFailureReason),
    Complete(Result<MediaExecutionStatus, MediaFailure>),
}

pub open spec fn spec_download_job_step(phase: DownloadJobPhase, event: DownloadJobEvent) -> (DownloadJobPhase, DownloadJobAction) {
    match (phase, event) {
        (DownloadJobPhase::ReadingPayload, DownloadJobEvent::PayloadRead { pixiv_work_id }) => if pixiv_work_id <= 0 {
            (DownloadJobPhase::Finished, DownloadJobAction::Fail(MediaFailureReason::InvalidWorkId))
        } else {
            (DownloadJobPhase::LoadingPlan { pixiv_work_id }, DownloadJobAction::LoadPlan)
        },
        (DownloadJobPhase::ReadingPayload, DownloadJobEvent::PayloadInvalid) =>
            (DownloadJobPhase::Finished, DownloadJobAction::Fail(MediaFailureReason::InvalidPayload)),
        (DownloadJobPhase::LoadingPlan { pixiv_work_id }, DownloadJobEvent::PlanLoaded { pixiv_work_id: plan_work, pending }) =>
            if plan_work != pixiv_work_id {
                (DownloadJobPhase::Finished, DownloadJobAction::Fail(MediaFailureReason::PlanMismatch))
            } else {
                (DownloadJobPhase::LoadingContext { pending }, DownloadJobAction::LoadContext)
            },
        (DownloadJobPhase::LoadingContext { pending }, DownloadJobEvent::ContextReady) => if pending == 0 {
            (DownloadJobPhase::CompletingJob, DownloadJobAction::CompleteJob)
        } else {
            (DownloadJobPhase::CheckingStorage { next: 0, count: pending }, DownloadJobAction::CheckStorage)
        },
        (DownloadJobPhase::CompletingJob, DownloadJobEvent::JobCompleted) =>
            (DownloadJobPhase::Finished, DownloadJobAction::Complete(Ok(MediaExecutionStatus::Finalized))),
        (DownloadJobPhase::CheckingStorage { next, count }, DownloadJobEvent::StorageStatus(status)) =>
            if status == StorageWriteStatus::Stopped {
                (DownloadJobPhase::Finished, DownloadJobAction::Complete(Ok(MediaExecutionStatus::WaitingStorage)))
            } else {
                (DownloadJobPhase::Downloading { next, count }, DownloadJobAction::DownloadItem { index: next, complete_job: next + 1 == count })
            },
        (DownloadJobPhase::CheckingStorage { .. }, DownloadJobEvent::StorageStatusUnavailable) =>
            (DownloadJobPhase::Finished, DownloadJobAction::Fail(MediaFailureReason::StorageStatusUnavailable)),
        (DownloadJobPhase::Downloading { next, count }, DownloadJobEvent::ItemDownloaded) => if next + 1 >= count {
            (DownloadJobPhase::Finished, DownloadJobAction::Complete(Ok(MediaExecutionStatus::Finalized)))
        } else {
            (DownloadJobPhase::CheckingStorage { next: (next + 1) as usize, count }, DownloadJobAction::CheckStorage)
        },
        (_, DownloadJobEvent::CallFailed(f)) => (DownloadJobPhase::Finished, DownloadJobAction::Complete(Err(f))),
        _ => (DownloadJobPhase::Finished, DownloadJobAction::Fail(MediaFailureReason::InvalidPayload)),
    }
}

/// One decision of a download job: the payload must name a positive Pixiv
/// work that matches the loaded plan; a plan with nothing pending for this
/// job completes it at once; otherwise the pending items are downloaded in
/// order, each only after the media volume was found to take writes (a
/// stopped volume leaves the job waiting for storage), and the last one
/// completes the job.
pub fn download_job_step(phase: DownloadJobPhase, event: DownloadJobEvent) -> (next: (DownloadJobPhase, DownloadJobAction))
    requires
        phase matches DownloadJobPhase::Downloading { next, count } ==> next < count,
        phase matches DownloadJobPhase::CheckingStorage { next, count } ==> next < count,
    ensures
        next == spec_download_job_step(phase, event),
{
    match (phase, event) {
        (DownloadJobPhase::ReadingPayload, DownloadJobEvent::PayloadRead { pixiv_work_id }) => if pixiv_work_id <= 0 {
            (DownloadJobPhase::Finished, DownloadJobAction::Fail(MediaFailureReason::InvalidWorkId))
        } else {
            (DownloadJobPhase::LoadingPlan { pixiv_work_id }, DownloadJobAction::LoadPlan)
        },
        (DownloadJobPhase::ReadingPayload, DownloadJobEvent::PayloadInvalid) =>
            (DownloadJobPhase::Finished, DownloadJobAction::Fail(MediaFailureReason::InvalidPayload)),
        (DownloadJobPhase::LoadingPlan { pixiv_work_id }, DownloadJobEvent::PlanLoaded { pixiv_work_id: plan_work, pending }) =>
            if plan_work != pixiv_work_id {
                (DownloadJobPhase::Finished, DownloadJobAction::Fail(MediaFailureReason::PlanMismatch))
            } else {
                (DownloadJobPhase::LoadingContext { pending }, DownloadJobAction::LoadContext)
            },
        (DownloadJobPhase::LoadingContext { pending }, DownloadJobEvent::ContextReady) => if pending == 0 {
            (DownloadJobPhase::CompletingJob, DownloadJobAction::CompleteJob)
        } else {
            (DownloadJobPhase::CheckingStorage { next: 0, count: pending }, DownloadJobAction::CheckStorage)
        },
        (DownloadJobPhase::CompletingJob, DownloadJobEvent::JobCompleted) =>
            (DownloadJobPhase::Finished, DownloadJobAction::Complete(Ok(MediaExecutionStatus::Finalized))),
        (DownloadJobPhase::CheckingStorage { next, count }, DownloadJobEvent::StorageStatus(status)) =>
            if status == StorageWriteStatus::Stopped {
                (DownloadJobPhase::Finished, DownloadJobAction::Complete(Ok(MediaExecutionStatus::WaitingStorage)))
            } else {
                (DownloadJobPhase::Downloading { next, count }, DownloadJobAction::DownloadItem { index: next, complete_job: next + 1 == count })
            },
        (DownloadJobPhase::CheckingStorage { .. }, DownloadJobEvent::StorageStatusUnavailable) =>
            (DownloadJobPhase::Finished, DownloadJobAction::Fail(MediaFailureReason::StorageStatusUnavailable)),
        (DownloadJobPhase::Downloading { next, count }, DownloadJobEvent::ItemDownloaded) => if next + 1 >= count {
            (DownloadJobPhase::Finished, DownloadJobAction::Complete(Ok(MediaExecutionStatus::Finalized)))
        } else {
            (DownloadJobPhase::CheckingStorage { next: next + 1, count }, DownloadJobAction::CheckStorage)
        },
        (_, DownloadJobEvent::CallFailed(f)) => (DownloadJobPhase::Finished, DownloadJobAction::Complete(Err(f))),
        _ => (DownloadJobPhase::Finished, DownloadJobAction::Fail(MediaFailureReason::InvalidPayload)),
    }
}

/// The download phases keep their position inside the pending items.
pub open spec fn download_phase_in_bounds(phase: DownloadJobPhase) -> bool {
    match phase {
        DownloadJobPhase::Downloading { next, count } => next < count,
        DownloadJobPhase::CheckingStorage { next, count } => next < count,
        _ => true,
    }
}

/// Every step keeps the position in bounds; an item is downloaded only
/// right after the volume was found writable, items come in order, and
/// exactly the last pending item completes the job.
pub proof fn lemma_download_job_order(phase: DownloadJobPhase, event: DownloadJobEvent)
    requires
        download_phase_in_bounds(phase),
    ensures
        download_phase_in_bounds(spec_download_job_step(phase, event).0),
        ({
            let (next, action) = spec_download_job_step(phase, event);
            action matches DownloadJobAction::DownloadItem { index, complete_job } ==> (
                phase matches DownloadJobPhase::CheckingStorage { next: n, count: c } && index == n
                && event == DownloadJobEvent::StorageStatus(StorageWriteStatus::Allowed)
                && complete_job == (index + 1 == c))
        }),
        ({
            let (next, action) = spec_download_job_step(phase, event);
            next matches DownloadJobPhase::CheckingStorage { next: n, .. } ==> (
                (phase matches DownloadJobPhase::Downloading { next: p, .. } && n == p + 1)
                || (phase is LoadingContext && n == 0))
        }),
{
}

/// What a download item's work needs to know up front.
#[derive(Clone, Copy, Debug, PartialEq, Eq)]
pub struct DownloadItemPlan {
    pub kind: MediaKind,
    pub has_ugoira_manifest: bool,
    /// This item is the job's last.
    pub complete_job: bool,
    /// The SHA-256 of the page's current revision, when it has one.
    pub current_sha256: Option<[u8; 32]>,
}

/// Whether two SHA-256 digests are the same.
pub fn same_digest(a: &[u8; 32], b: &[u8; 32]) -> (same: bool)
    ensures
        same == (a@ == b@),
{
    let mut i: usize = 0;
    while i < 32
        invariant
            i <= 32,
            a@.len() == 32,
            b@.len() == 32,
            forall|k: int| 0 <= k < i ==> a@[k] == b@[k],
        decreases 32 - i,
    {
        if a[i] != b[i] {
            assert(a@[i as int] != b@[i as int]);
            return false;
        }
        i = i + 1;
    }
    assert(a@ =~= b@);
    true
}

/// The stored file is the page's current revision over again: the page
/// has a current revision with the same SHA-256.
pub open spec fn same_as_current(plan: DownloadItemPlan, stored_sha256: [u8; 32]) -> bool {
    plan.current_sha256 matches Some(c) && c@ == stored_sha256@
}

/// Where downloading one item stands.
#[derive(Clone, Copy, Debug, PartialEq, Eq, Structural)]
pub enum DownloadItemPhase {
    FetchingMedia,
    BuildingPath,
    RegisteringIntent,
    Ingesting,
    CheckingCurrentFile,
    RemovingRedundantFile,
    CompletingJob,
    FindingDuplicate,
    Reflinking,
    Saving,
    Finished,
}

/// What the last call reported.
#[derive(Clone, Debug, PartialEq, Eq)]
pub enum DownloadItemEvent {
    MediaFetched,
    PathBuilt,
    PathFailed,
    IntentRegistered,
    /// The file was stored, with this SHA-256.
    Ingested { stored_sha256: [u8; 32] },
    CurrentFile { exists: bool },
    CurrentFileUnreadable,
    RedundantFileRemoved,
    RedundantFileNotRemoved,
    JobCompleted,
    Duplicate { found: bool },
    /// The copy-on-write clone ran, whether or not it succeeded.
    ReflinkFinished,
    ReflinkStopped,
    RevisionSaved,
    CallFailed(MediaFailure),
}

/// The next call to make, or how the item ended.
#[derive(Debug, PartialEq, Eq)]
pub enum DownloadItemAction {
    BuildPath,
    RegisterIntent,
    Ingest { ugoira: bool },
    CheckCurrentFile,
    RemoveRedundantFile,
    CompleteJob,
    FindDuplicate,
    ReflinkDuplicate,
    SaveRevision { complete_job: bool },
    Fail(MediaFailureReason),
    Complete(Result<(), MediaFailure>),
}

pub open spec fn spec_download_item_step(plan: DownloadItemPlan, phase: DownloadItemPhase, event: DownloadItemEvent) -> (DownloadItemPhase, DownloadItemAction) {
    match (phase, event) {
        (DownloadItemPhase::FetchingMedia, DownloadItemEvent::MediaFetched) => if plan.kind == MediaKind::Derivative {
            (DownloadItemPhase::Finished, DownloadItemAction::Fail(MediaFailureReason::UnsupportedKind))
        } else {
            (DownloadItemPhase::BuildingPath, DownloadItemAction::BuildPath)
        },
        (DownloadItemPhase::BuildingPath, DownloadItemEvent::PathBuilt) => (DownloadItemPhase::RegisteringIntent, DownloadItemAction::RegisterIntent),
        (DownloadItemPhase::BuildingPath, DownloadItemEvent::PathFailed) =>
            (DownloadItemPhase::Finished, DownloadItemAction::Fail(MediaFailureReason::PathUnavailable)),
        (DownloadItemPhase::RegisteringIntent, DownloadItemEvent::IntentRegistered) =>
            if plan.kind == MediaKind::UgoiraZip && !plan.has_ugoira_manifest {
                (DownloadItemPhase::Finished, DownloadItemAction::Fail(MediaFailureReason::MissingUgoiraManifest))
            } else {
                (DownloadItemPhase::Ingesting, DownloadItemAction::Ingest { ugoira: plan.kind == MediaKind::UgoiraZip })
            },
        (DownloadItemPhase::Ingesting, DownloadItemEvent::Ingested { stored_sha256 }) => if same_as_current(plan, stored_sha256) {
            (DownloadItemPhase::CheckingCurrentFile, DownloadItemAction::CheckCurrentFile)
        } else {
            (DownloadItemPhase::FindingDuplicate, DownloadItemAction::FindDuplicate)
        },
        (DownloadItemPhase::CheckingCurrentFile, DownloadItemEvent::CurrentFile { exists }) => if exists {
            (DownloadItemPhase::RemovingRedundantFile, DownloadItemAction::RemoveRedundantFile)
        } else {
            (DownloadItemPhase::FindingDuplicate, DownloadItemAction::FindDuplicate)
        },
        (DownloadItemPhase::CheckingCurrentFile, DownloadItemEvent::CurrentFileUnreadable) =>
            (DownloadItemPhase::Finished, DownloadItemAction::Fail(MediaFailureReason::CurrentFileUnreadable)),
        (DownloadItemPhase::RemovingRedundantFile, DownloadItemEvent::RedundantFileRemoved) => if plan.complete_job {
            (DownloadItemPhase::CompletingJob, DownloadItemAction::CompleteJob)
        } else {
            (DownloadItemPhase::Finished, DownloadItemAction::Complete(Ok(())))
        },
        (DownloadItemPhase::RemovingRedundantFile, DownloadItemEvent::RedundantFileNotRemoved) =>
            (DownloadItemPhase::Finished, DownloadItemAction::Fail(MediaFailureReason::RedundantFileNotRemoved)),
        (DownloadItemPhase::CompletingJob, DownloadItemEvent::JobCompleted) =>
            (DownloadItemPhase::Finished, DownloadItemAction::Complete(Ok(()))),
        (DownloadItemPhase::FindingDuplicate, DownloadItemEvent::Duplicate { found }) => if found {
            (DownloadItemPhase::Reflinking, DownloadItemAction::ReflinkDuplicate)
        } else {
            (DownloadItemPhase::Saving, DownloadItemAction::SaveRevision { complete_job: plan.complete_job })
        },
        (DownloadItemPhase::Reflinking, DownloadItemEvent::ReflinkFinished) =>
            (DownloadItemPhase::Saving, DownloadItemAction::SaveRevision { complete_job: plan.complete_job }),
        (DownloadItemPhase::Reflinking, DownloadItemEvent::ReflinkStopped) =>
            (DownloadItemPhase::Finished, DownloadItemAction::Fail(MediaFailureReason::DeduplicationStopped)),
        (DownloadItemPhase::Saving, DownloadItemEvent::RevisionSaved) =>
            (DownloadItemPhase::Finished, DownloadItemAction::Complete(Ok(()))),
        (_, DownloadItemEvent::CallFailed(f)) => (DownloadItemPhase::Finished, DownloadItemAction::Complete(Err(f))),
        _ => (DownloadItemPhase::Finished, DownloadItemAction::Fail(MediaFailureReason::UnsupportedKind)),
    }
}

/// One decision of downloading an item. Derivatives are never downloaded;
/// an ugoira needs its frame manifest; the file is stored before anything
/// about it is decided; a download whose SHA-256 equals that of the page's
/// current revision, whose file is still there, is removed again and saves
/// nothing; otherwise an identical stored file is cloned when there is one
/// (a failed clone keeps the download) and the revision is saved. The
/// job's last item completes the job either way.
pub fn download_item_step(plan: DownloadItemPlan, phase: DownloadItemPhase, event: DownloadItemEvent) -> (next: (DownloadItemPhase, DownloadItemAction))
    ensures
        next == spec_download_item_step(plan, phase, event),
{
    match (phase, event) {
        (DownloadItemPhase::FetchingMedia, DownloadItemEvent::MediaFetched) => if plan.kind == MediaKind::Derivative {
            (DownloadItemPhase::Finished, DownloadItemAction::Fail(MediaFailureReason::UnsupportedKind))
        } else {
            (DownloadItemPhase::BuildingPath, DownloadItemAction::BuildPath)
        },
        (DownloadItemPhase::BuildingPath, DownloadItemEvent::PathBuilt) => (DownloadItemPhase::RegisteringIntent, DownloadItemAction::RegisterIntent),
        (DownloadItemPhase::BuildingPath, DownloadItemEvent::PathFailed) =>
            (DownloadItemPhase::Finished, DownloadItemAction::Fail(MediaFailureReason::PathUnavailable)),
        (DownloadItemPhase::RegisteringIntent, DownloadItemEvent::IntentRegistered) =>
            if plan.kind == MediaKind::UgoiraZip && !plan.has_ugoira_manifest {
                (DownloadItemPhase::Finished, DownloadItemAction::Fail(MediaFailureReason::MissingUgoiraManifest))
            } else {
                (DownloadItemPhase::Ingesting, DownloadItemAction::Ingest { ugoira: plan.kind == MediaKind::UgoiraZip })
            },
        (DownloadItemPhase::Ingesting, DownloadItemEvent::Ingested { stored_sha256 }) => if (match plan.current_sha256 {
            Some(current) => same_digest(&current, &stored_sha256),
            None => false,
        }) {
            (DownloadItemPhase::CheckingCurrentFile, DownloadItemAction::CheckCurrentFile)
        } else {
            (DownloadItemPhase::FindingDuplicate, DownloadItemAction::FindDuplicate)
        },
        (DownloadItemPhase::CheckingCurrentFile, DownloadItemEvent::CurrentFile { exists }) => if exists {
            (DownloadItemPhase::RemovingRedundantFile, DownloadItemAction::RemoveRedundantFile)
        } else {
            (DownloadItemPhase::FindingDuplicate, DownloadItemAction::FindDuplicate)
        },
        (DownloadItemPhase::CheckingCurrentFile, DownloadItemEvent::CurrentFileUnreadable) =>
            (DownloadItemPhase::Finished, DownloadItemAction::Fail(MediaFailureReason::CurrentFileUnreadable)),
        (DownloadItemPhase::RemovingRedundantFile, DownloadItemEvent::RedundantFileRemoved) => if plan.complete_job {
            (DownloadItemPhase::CompletingJob, DownloadItemAction::CompleteJob)
        } else {
            (DownloadItemPhase::Finished, DownloadItemAction::Complete(Ok(())))
        },
        (DownloadItemPhase::RemovingRedundantFile, DownloadItemEvent::RedundantFileNotRemoved) =>
            (DownloadItemPhase::Finished, DownloadItemAction::Fail(MediaFailureReason::RedundantFileNotRemoved)),
        (DownloadItemPhase::CompletingJob, DownloadItemEvent::JobCompleted) =>
            (DownloadItemPhase::Finished, DownloadItemAction::Complete(Ok(()))),
        (DownloadItemPhase::FindingDuplicate, DownloadItemEvent::Duplicate { found }) => if found {
            (DownloadItemPhase::Reflinking, DownloadItemAction::ReflinkDuplicate)
        } else {
            (DownloadItemPhase::Saving, DownloadItemAction::SaveRevision { complete_job: plan.complete_job })
        },
        (DownloadItemPhase::Reflinking, DownloadItemEvent::ReflinkFinished) =>
            (DownloadItemPhase::Saving, DownloadItemAction::SaveRevision { complete_job: plan.complete_job }),
        (DownloadItemPhase::Reflinking, DownloadItemEvent::ReflinkStopped) =>
            (DownloadItemPhase::Finished, DownloadItemAction::Fail(MediaFailureReason::DeduplicationStopped)),
        (DownloadItemPhase::Saving, DownloadItemEvent::RevisionSaved) =>
            (DownloadItemPhase::Finished, DownloadItemAction::Complete(Ok(()))),
        (_, DownloadItemEvent::CallFailed(f)) => (DownloadItemPhase::Finished, DownloadItemAction::Complete(Err(f))),
        _ => (DownloadItemPhase::Finished, DownloadItemAction::Fail(MediaFailureReason::UnsupportedKind)),
    }
}

/// A redundant download saves no revision: the current file is looked for
/// only when the stored file's SHA-256 equals the current revision's; once
/// it was found for such a download, the only calls left are removing the new
/// file and, for the last item, completing the job. A revision is saved,
/// and the job completed, only for the last item.
pub proof fn lemma_redundant_download_saves_nothing(plan: DownloadItemPlan, phase: DownloadItemPhase, event: DownloadItemEvent)
    ensures
        (phase == DownloadItemPhase::RemovingRedundantFile || phase == DownloadItemPhase::CompletingJob)
            ==> !(spec_download_item_step(plan, phase, event).1 is SaveRevision),
        ({
            let (next, action) = spec_download_item_step(plan, phase, event);
            &&& (action matches DownloadItemAction::SaveRevision { complete_job } ==> complete_job == plan.complete_job)
            &&& (action is CompleteJob ==> plan.complete_job)
            &&& (action is Ingest ==> phase == DownloadItemPhase::RegisteringIntent)
            &&& (action is CheckCurrentFile ==> (event matches DownloadItemEvent::Ingested { stored_sha256 }
                && same_as_current(plan, stored_sha256)))
        }),
{
}

/// Where a derivative job stands.
#[derive(Clone, Copy, Debug, PartialEq, Eq, Structural)]
pub enum DerivativePhase {
    CheckingStorageFirst,
    ReadingPayload,
    LoadingMedia { regenerate: bool },
    PreparingSource { kind: MediaKind, regenerate: bool },
    BuildingPath { regenerate: bool },
    BuildingRegenerationPath,
    CheckingStorageAgain,
    RegisteringIntent,
    Generating,
    Saving,
    Finished,
}

/// The kind of derivative made from a media kind.
#[derive(Clone, Copy, Debug, PartialEq, Eq, Structural)]
pub enum DerivativeKind {
    WaterfallThumbnail,
    UgoiraCover,
}

/// What the last call reported.
#[derive(Clone, Copy, Debug, PartialEq, Eq, Structural)]
pub enum DerivativeEvent {
    StorageStatus(StorageWriteStatus),
    StorageStatusUnavailable,
    PayloadRead { regenerate: bool },
    PayloadInvalid,
    MediaLoaded { kind: MediaKind },
    SourcePrepared,
    SourceFailed(PrepareSourceError),
    PathBuilt,
    PathFailed,
    IntentRegistered,
    Generated,
    GenerationFailed(DerivativeErrorKind),
    Saved,
    StorageFailed(MediaProcessingFailure),
}

/// The next call to make, or how the job ended.
#[derive(Clone, Copy, Debug, PartialEq, Eq)]
pub enum DerivativeAction {
    CheckStorage,
    ReadPayload,
    LoadMedia,
    PrepareSource,
    BuildPath(DerivativeKind),
    BuildRegenerationPath,
    RegisterIntent,
    Generate,
    SaveDerivative,
    Complete(Result<MediaExecutionStatus, MediaProcessingFailure>),
}

pub open spec fn derivative_done(r: Result<MediaExecutionStatus, MediaProcessingFailure>) -> (DerivativePhase, DerivativeAction) {
    (DerivativePhase::Finished, DerivativeAction::Complete(r))
}

pub open spec fn spec_derivative_step(phase: DerivativePhase, event: DerivativeEvent) -> (DerivativePhase, DerivativeAction) {
    match (phase, event) {
        (DerivativePhase::CheckingStorageFirst, DerivativeEvent::StorageStatus(s)) => if s == StorageWriteStatus::Stopped {
            derivative_done(Ok(MediaExecutionStatus::WaitingStorage))
        } else {
            (DerivativePhase::ReadingPayload, DerivativeAction::ReadPayload)
        },
        (DerivativePhase::ReadingPayload, DerivativeEvent::PayloadRead { regenerate }) =>
            (DerivativePhase::LoadingMedia { regenerate }, DerivativeAction::LoadMedia),
        (DerivativePhase::ReadingPayload, DerivativeEvent::PayloadInvalid) =>
            derivative_done(Err(MediaProcessingFailure { error_class: JobErrorClass::Permanent })),
        (DerivativePhase::LoadingMedia { regenerate }, DerivativeEvent::MediaLoaded { kind }) =>
            (DerivativePhase::PreparingSource { kind, regenerate }, DerivativeAction::PrepareSource),
        (DerivativePhase::PreparingSource { kind, regenerate }, DerivativeEvent::SourcePrepared) => match kind {
            MediaKind::SourceImage => (DerivativePhase::BuildingPath { regenerate }, DerivativeAction::BuildPath(DerivativeKind::WaterfallThumbnail)),
            MediaKind::UgoiraZip => (DerivativePhase::BuildingPath { regenerate }, DerivativeAction::BuildPath(DerivativeKind::UgoiraCover)),
            MediaKind::Derivative => derivative_done(Err(MediaProcessingFailure { error_class: JobErrorClass::Permanent })),
        },
        (DerivativePhase::PreparingSource { .. }, DerivativeEvent::SourceFailed(e)) =>
            derivative_done(Err(MediaProcessingFailure { error_class: spec_prepare_source_class(e) })),
        (DerivativePhase::BuildingPath { regenerate }, DerivativeEvent::PathBuilt) => if regenerate {
            (DerivativePhase::BuildingRegenerationPath, DerivativeAction::BuildRegenerationPath)
        } else {
            (DerivativePhase::CheckingStorageAgain, DerivativeAction::CheckStorage)
        },
        (DerivativePhase::BuildingRegenerationPath, DerivativeEvent::PathBuilt) =>
            (DerivativePhase::CheckingStorageAgain, DerivativeAction::CheckStorage),
        (DerivativePhase::BuildingPath { .. }, DerivativeEvent::PathFailed) =>
            derivative_done(Err(MediaProcessingFailure { error_class: JobErrorClass::Permanent })),
        (DerivativePhase::BuildingRegenerationPath, DerivativeEvent::PathFailed) =>
            derivative_done(Err(MediaProcessingFailure { error_class: JobErrorClass::Permanent })),
        (DerivativePhase::CheckingStorageAgain, DerivativeEvent::StorageStatus(s)) => if s == StorageWriteStatus::Stopped {
            derivative_done(Ok(MediaExecutionStatus::WaitingStorage))
        } else {
            (DerivativePhase::RegisteringIntent, DerivativeAction::RegisterIntent)
        },
        (DerivativePhase::RegisteringIntent, DerivativeEvent::IntentRegistered) => (DerivativePhase::Generating, DerivativeAction::Generate),
        (DerivativePhase::Generating, DerivativeEvent::Generated) => (DerivativePhase::Saving, DerivativeAction::SaveDerivative),
        (DerivativePhase::Generating, DerivativeEvent::GenerationFailed(e)) =>
            derivative_done(Err(MediaProcessingFailure {
                error_class: if e == DerivativeErrorKind::Rejected { JobErrorClass::Permanent } else { JobErrorClass::Server },
            })),
        (DerivativePhase::Saving, DerivativeEvent::Saved) => derivative_done(Ok(MediaExecutionStatus::Finalized)),
        (_, DerivativeEvent::StorageStatusUnavailable) => derivative_done(Err(MediaProcessingFailure { error_class: JobErrorClass::Server })),
        (_, DerivativeEvent::StorageFailed(f)) => derivative_done(Err(f)),
        _ => derivative_done(Err(MediaProcessingFailure { error_class: JobErrorClass::Permanent })),
    }
}

/// One decision of a derivative job. Nothing is read while the media
/// volume is stopped, and it is checked again right before the derivative
/// is registered; a source image gets a waterfall thumbnail, an ugoira a
/// cover, a derivative nothing; a regeneration writes beside the current
/// derivative; the derivative is saved (completing the job) only after it
/// was generated.
pub fn derivative_step(phase: DerivativePhase, event: DerivativeEvent) -> (next: (DerivativePhase, DerivativeAction))
    ensures
        next == spec_derivative_step(phase, event),
{
    match (phase, event) {
        (DerivativePhase::CheckingStorageFirst, DerivativeEvent::StorageStatus(s)) => if s == StorageWriteStatus::Stopped {
            (DerivativePhase::Finished, DerivativeAction::Complete(Ok(MediaExecutionStatus::WaitingStorage)))
        } else {
            (DerivativePhase::ReadingPayload, DerivativeAction::ReadPayload)
        },
        (DerivativePhase::ReadingPayload, DerivativeEvent::PayloadRead { regenerate }) =>
            (DerivativePhase::LoadingMedia { regenerate }, DerivativeAction::LoadMedia),
        (DerivativePhase::ReadingPayload, DerivativeEvent::PayloadInvalid) =>
            (DerivativePhase::Finished, DerivativeAction::Complete(Err(MediaProcessingFailure::permanent()))),
        (DerivativePhase::LoadingMedia { regenerate }, DerivativeEvent::MediaLoaded { kind }) =>
            (DerivativePhase::PreparingSource { kind, regenerate }, DerivativeAction::PrepareSource),
        (DerivativePhase::PreparingSource { kind, regenerate }, DerivativeEvent::SourcePrepared) => match kind {
            MediaKind::SourceImage => (DerivativePhase::BuildingPath { regenerate }, DerivativeAction::BuildPath(DerivativeKind::WaterfallThumbnail)),
            MediaKind::UgoiraZip => (DerivativePhase::BuildingPath { regenerate }, DerivativeAction::BuildPath(DerivativeKind::UgoiraCover)),
            MediaKind::Derivative => (DerivativePhase::Finished, DerivativeAction::Complete(Err(MediaProcessingFailure::permanent()))),
        },
        (DerivativePhase::PreparingSource { .. }, DerivativeEvent::SourceFailed(e)) =>
            (DerivativePhase::Finished, DerivativeAction::Complete(Err(MediaProcessingFailure::prepare_source(e)))),
        (DerivativePhase::BuildingPath { regenerate }, DerivativeEvent::PathBuilt) => if regenerate {
            (DerivativePhase::BuildingRegenerationPath, DerivativeAction::BuildRegenerationPath)
        } else {
            (DerivativePhase::CheckingStorageAgain, DerivativeAction::CheckStorage)
        },
        (DerivativePhase::BuildingRegenerationPath, DerivativeEvent::PathBuilt) =>
            (DerivativePhase::CheckingStorageAgain, DerivativeAction::CheckStorage),
        (DerivativePhase::BuildingPath { .. }, DerivativeEvent::PathFailed) =>
            (DerivativePhase::Finished, DerivativeAction::Complete(Err(MediaProcessingFailure::permanent()))),
        (DerivativePhase::BuildingRegenerationPath, DerivativeEvent::PathFailed) =>
            (DerivativePhase::Finished, DerivativeAction::Complete(Err(MediaProcessingFailure::permanent()))),
        (DerivativePhase::CheckingStorageAgain, DerivativeEvent::StorageStatus(s)) => if s == StorageWriteStatus::Stopped {
            (DerivativePhase::Finished, DerivativeAction::Complete(Ok(MediaExecutionStatus::WaitingStorage)))
        } else {
            (DerivativePhase::RegisteringIntent, DerivativeAction::RegisterIntent)
        },
        (DerivativePhase::RegisteringIntent, DerivativeEvent::IntentRegistered) => (DerivativePhase::Generating, DerivativeAction::Generate),
        (DerivativePhase::Generating, DerivativeEvent::Generated) => (DerivativePhase::Saving, DerivativeAction::SaveDerivative),
        (DerivativePhase::Generating, DerivativeEvent::GenerationFailed(e)) =>
            (DerivativePhase::Finished, DerivativeAction::Complete(Err(MediaProcessingFailure::derivative(e)))),
        (DerivativePhase::Saving, DerivativeEvent::Saved) =>
            (DerivativePhase::Finished, DerivativeAction::Complete(Ok(MediaExecutionStatus::Finalized))),
        (_, DerivativeEvent::StorageStatusUnavailable) =>
            (DerivativePhase::Finished, DerivativeAction::Complete(Err(MediaProcessingFailure::server()))),
        (_, DerivativeEvent::StorageFailed(f)) => (DerivativePhase::Finished, DerivativeAction::Complete(Err(f))),
        _ => (DerivativePhase::Finished, DerivativeAction::Complete(Err(MediaProcessingFailure::permanent()))),
    }
}

/// A derivative is registered only right after the volume was found
/// writable the second time, and saved only after it was generated.
pub proof fn lemma_derivative_checks_storage(phase: DerivativePhase, event: DerivativeEvent)
    ensures
        ({
            let (next, action) = spec_derivative_step(phase, event);
            &&& (action == DerivativeAction::RegisterIntent ==> phase == DerivativePhase::CheckingStorageAgain
                && event == DerivativeEvent::StorageStatus(StorageWriteStatus::Allowed))
            &&& (action == DerivativeAction::SaveDerivative ==> phase == DerivativePhase::Generating
                && event == DerivativeEvent::Generated)
            &&& (action == DerivativeAction::ReadPayload ==> phase == DerivativePhase::CheckingStorageFirst)
        }),
{
}

/// How a processing source is prepared for a media kind.
#[derive(Clone, Copy, Debug, PartialEq, Eq)]
pub enum SourcePreparation {
    /// Use the stored original as it is.
    UseOriginal,
    /// Extract the ugoira's first frame into a staging file with this
    /// extension.
    ExtractFirstFrame { extension: &'static str },
}

/// A source image is used as it is; an ugoira needs its frame manifest and
/// a JPEG or PNG first frame; a derivative cannot be a source.
pub fn source_preparation(kind: MediaKind, frame_content_type: Option<&str>) -> (r: Result<SourcePreparation, PrepareSourceError>)
    ensures
        kind == MediaKind::SourceImage ==> r == Ok::<SourcePreparation, PrepareSourceError>(SourcePreparation::UseOriginal),
        kind == MediaKind::Derivative ==> r == Err::<SourcePreparation, PrepareSourceError>(PrepareSourceError::UnsupportedMediaKind),
        kind == MediaKind::UgoiraZip ==> match frame_content_type {
            None => r == Err::<SourcePreparation, PrepareSourceError>(PrepareSourceError::MissingUgoiraMetadata),
            Some(t) => match spec_frame_extension(t@) {
                None => r == Err::<SourcePreparation, PrepareSourceError>(PrepareSourceError::UnsupportedFrame),
                Some(e) => r matches Ok(SourcePreparation::ExtractFirstFrame { extension }) && extension@ == e,
            },
        },
{
    match kind {
        MediaKind::SourceImage => Ok(SourcePreparation::UseOriginal),
        MediaKind::Derivative => Err(PrepareSourceError::UnsupportedMediaKind),
        MediaKind::UgoiraZip => match frame_content_type {
            None => Err(PrepareSourceError::MissingUgoiraMetadata),
            Some(t) => match frame_extension(t) {
                None => Err(PrepareSourceError::UnsupportedFrame),
                Some(extension) => Ok(SourcePreparation::ExtractFirstFrame { extension }),
            },
        },
    }
}

/// What to do with a terminal job's media artifact intent.
#[derive(Clone, Copy, Debug, PartialEq, Eq, Structural)]
pub enum ArtifactCleanup {
    /// Another job's row still references the file: only drop the intent.
    DropIntent,
    /// Remove the unreferenced file, then drop the intent.
    RemoveFileThenDropIntent,
}

/// An unreferenced artifact's file is removed before its intent is
/// dropped; a referenced one keeps its file.
pub fn artifact_cleanup(referenced: bool) -> (c: ArtifactCleanup)
    ensures
        c == (if referenced { ArtifactCleanup::DropIntent } else { ArtifactCleanup::RemoveFileThenDropIntent }),
{
    if referenced { ArtifactCleanup::DropIntent } else { ArtifactCleanup::RemoveFileThenDropIntent }
}

/// How removing an artifact's file went.
#[derive(Clone, Copy, Debug, PartialEq, Eq, Structural)]
pub enum ArtifactRemoval {
    /// Removed, already gone, or nothing to remove.
    Done,
    /// The path or the removal failed; the failure is recorded and the
    /// intent kept for a later attempt.
    Failed,
}

/// Counts the intents a cleanup pass dropped: those whose file was removed
/// or referenced elsewhere.
pub fn cleaned_count(removals: &Vec<ArtifactRemoval>) -> (n: usize)
    ensures
        n == removals@.filter(|r: ArtifactRemoval| r == ArtifactRemoval::Done).len(),
{
    let mut n: usize = 0;
    let mut i: usize = 0;
    while i < removals.len()
        invariant
            i <= removals@.len(),
            n == removals@.take(i as int).filter(|r: ArtifactRemoval| r == ArtifactRemoval::Done).len(),
            n <= i,
        decreases removals.len() - i,
    {
        proof {
            assert(removals@.take(i as int + 1) =~= removals@.take(i as int).push(removals@[i as int]));
            removals@.take(i as int).lemma_filter_push(removals@[i as int], |r: ArtifactRemoval| r == ArtifactRemoval::Done);
        }
        if removals[i] == ArtifactRemoval::Done {
            n = n + 1;
        }
        i = i + 1;
    }
    assert(removals@.take(removals@.len() as int) =~= removals@);
    n
}

} // verus!
