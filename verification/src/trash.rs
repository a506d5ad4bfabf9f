//! The trash: retention limits, selection commands, and purging a trashed
//! work's files.

use vstd::prelude::*;
use crate::domain::{DbError, JobErrorClass, PixivAccountState};
use crate::text::str_eq;

verus! {

pub const MIN_RETENTION_DAYS: u16 = 1;
pub const MAX_RETENTION_DAYS: u16 = 365;
pub const MAX_DUE_PURGES: u32 = 1000;

/// A retention outside 1 to 365 days is refused.
pub fn validate_retention(retention_days: u16) -> (r: Result<(), DbError>)
    ensures
        r is Ok <==> MIN_RETENTION_DAYS <= retention_days <= MAX_RETENTION_DAYS,
        r matches Err(e) ==> e matches DbError::InvalidValue(m) && m@ == "trash retention must be between 1 and 365 days"@,
{
    if retention_days < MIN_RETENTION_DAYS || retention_days > MAX_RETENTION_DAYS {
        return Err(DbError::InvalidValue(String::from_str("trash retention must be between 1 and 365 days")));
    }
    Ok(())
}

/// When a work moved to the trash now (in Unix seconds) is purged: a
/// retention of 1 to 365 days is accepted and the purge scheduled that many
/// whole days later; any other retention is refused before anything is
/// changed.
pub fn scheduled_purge_at(now_unix_seconds: i64, retention_days: u16) -> (r: Result<i64, DbError>)
    requires
        now_unix_seconds + 365 * 86400 <= i64::MAX,
    ensures
        r is Ok <==> MIN_RETENTION_DAYS <= retention_days <= MAX_RETENTION_DAYS,
        r matches Ok(at) ==> at == now_unix_seconds + retention_days * 86400,
        r matches Err(e) ==> e matches DbError::InvalidValue(m) && m@ == "trash retention must be between 1 and 365 days"@,
{
    validate_retention(retention_days)?;
    Ok(now_unix_seconds + (retention_days as i64) * 86400)
}

/// A due-purge batch takes 1 to 1000 works.
pub fn validate_due_purge_limit(limit: u32) -> (r: Result<(), DbError>)
    ensures
        r is Ok <==> 1 <= limit <= MAX_DUE_PURGES,
        r matches Err(e) ==> e matches DbError::InvalidValue(m) && m@ == "due purge limit must be between 1 and 1000"@,
{
    if limit == 0 || limit > MAX_DUE_PURGES {
        return Err(DbError::InvalidValue(String::from_str("due purge limit must be between 1 and 1000")));
    }
    Ok(())
}

/// Works trashed from the gallery are attributed to the current account
/// only while it is usable.
pub fn trashing_account(current: Option<(u128, PixivAccountState)>) -> (id: Option<u128>)
    ensures
        id == (match current {
            Some((account, state)) => if state == PixivAccountState::Normal || state == PixivAccountState::Restricted {
                Some(account)
            } else {
                None
            },
            None => None,
        }),
{
    match current {
        Some((account, state)) => match state {
            PixivAccountState::Normal | PixivAccountState::Restricted => Some(account),
            _ => None,
        },
        None => None,
    }
}

/// What a selection command changed.
#[derive(Clone, Copy, Debug, PartialEq, Eq, Structural)]
pub struct TrashSelectionMutation {
    pub selected_count: u64,
    pub affected_count: u64,
    pub blocked_count: u64,
}

#[derive(Clone, Debug, PartialEq, Eq)]
pub enum TrashSelectionCommandError {
    /// Some selected works are already being purged.
    Blocked { selected_count: u64, blocked_count: u64 },
    Storage(DbError),
}

/// A selection command is refused as a whole when any selected work is
/// already being purged; otherwise it answers how many works it changed.
pub fn require_unblocked(mutation: TrashSelectionMutation) -> (r: Result<u64, TrashSelectionCommandError>)
    ensures
        mutation.blocked_count > 0 ==> r == Err::<u64, TrashSelectionCommandError>(TrashSelectionCommandError::Blocked {
            selected_count: mutation.selected_count,
            blocked_count: mutation.blocked_count,
        }),
        mutation.blocked_count == 0 ==> r == Ok::<u64, TrashSelectionCommandError>(mutation.affected_count),
{
    if mutation.blocked_count > 0 {
        return Err(TrashSelectionCommandError::Blocked {
            selected_count: mutation.selected_count,
            blocked_count: mutation.blocked_count,
        });
    }
    Ok(mutation.affected_count)
}

/// Why a work was purged.
#[derive(Clone, Copy, Debug, PartialEq, Eq, Structural)]
pub enum DeletionMethod {
    ManualPurge,
    RetentionExpired,
}

pub open spec fn deletion_method_name(m: DeletionMethod) -> Seq<char> {
    match m {
        DeletionMethod::ManualPurge => "manual_purge"@,
        DeletionMethod::RetentionExpired => "retention_expired"@,
    }
}

impl DeletionMethod {
    pub fn as_str(self) -> (s: &'static str)
        ensures
            s@ == deletion_method_name(self),
    {
        match self {
            DeletionMethod::ManualPurge => "manual_purge",
            DeletionMethod::RetentionExpired => "retention_expired",
        }
    }

    /// The method stored under a name; only the two method names are
    /// accepted.
    pub fn parse(value: &str) -> (m: Option<DeletionMethod>)
        ensures
            m matches Some(x) ==> deletion_method_name(x) == value@,
            m is None ==> value@ != "manual_purge"@ && value@ != "retention_expired"@,
    {
        if str_eq(value, "manual_purge") {
            Some(DeletionMethod::ManualPurge)
        } else if str_eq(value, "retention_expired") {
            Some(DeletionMethod::RetentionExpired)
        } else {
            None
        }
    }
}

/// Why purging a trashed work failed.
#[derive(Clone, Debug, PartialEq, Eq)]
pub enum TrashCleanupError {
    InvalidPayload,
    InvalidMediaPath,
    FileSystem,
    Database(DbError),
}

pub open spec fn spec_trash_error_class(error: TrashCleanupError) -> JobErrorClass {
    match error {
        TrashCleanupError::InvalidPayload | TrashCleanupError::InvalidMediaPath => JobErrorClass::Permanent,
        TrashCleanupError::FileSystem => JobErrorClass::Server,
        TrashCleanupError::Database(db) => match db {
            DbError::Connection(_) | DbError::Query(_) | DbError::LeaseConflict | DbError::RevisionConflict => JobErrorClass::Server,
            _ => JobErrorClass::Permanent,
        },
    }
}

impl TrashCleanupError {
    /// A bad payload or a path that escapes the media root is permanent; a
    /// file that could not be removed, and transient storage failures, are
    /// retried.
    pub fn error_class(&self) -> (c: JobErrorClass)
        ensures
            c == spec_trash_error_class(*self),
    {
        match self {
            TrashCleanupError::InvalidPayload | TrashCleanupError::InvalidMediaPath => JobErrorClass::Permanent,
            TrashCleanupError::FileSystem => JobErrorClass::Server,
            TrashCleanupError::Database(db) => match db {
                DbError::Connection(_) | DbError::Query(_) | DbError::LeaseConflict | DbError::RevisionConflict => JobErrorClass::Server,
                _ => JobErrorClass::Permanent,
            },
        }
    }
}

/// How removing one of a work's files went.
#[derive(Clone, Copy, Debug, PartialEq, Eq, Structural)]
pub enum PurgeFileResult {
    /// The file was not there to begin with.
    Absent,
    /// Removed, or gone by the time of removal.
    Removed,
    /// The path resolves outside the media root.
    InvalidPath,
    /// The path could not be resolved, or the file not removed.
    Failed,
}

/// The files that could not be purged, and whether one of them can never
/// be (its path escapes the media root).
#[derive(Clone, Debug, PartialEq, Eq)]
pub struct PurgeSummary {
    pub failed: Vec<usize>,
    pub permanent: bool,
}

pub open spec fn purge_failed(r: PurgeFileResult) -> bool {
    r == PurgeFileResult::InvalidPath || r == PurgeFileResult::Failed
}

/// Collects the failures of a purge, in file order.
pub fn summarize_purge(results: &Vec<PurgeFileResult>) -> (s: PurgeSummary)
    ensures
        s.failed@ == Seq::new(results@.len(), |i: int| i).filter(|i: int| purge_failed(results@[i])).map_values(|i: int| i as usize),
        s.permanent <==> exists|i: int| 0 <= i < results@.len() && results@[i] == PurgeFileResult::InvalidPath,
{
    let ghost all = Seq::new(results@.len(), |i: int| i);
    let mut failed: Vec<usize> = Vec::new();
    let mut permanent = false;
    let mut i: usize = 0;
    while i < results.len()
        invariant
            i <= results@.len(),
            all == Seq::new(results@.len(), |k: int| k),
            failed@ == all.take(i as int).filter(|k: int| purge_failed(results@[k])).map_values(|k: int| k as usize),
            permanent <==> exists|k: int| 0 <= k < i && results@[k] == PurgeFileResult::InvalidPath,
        decreases results.len() - i,
    {
        let r = results[i];
        proof {
            assert(all.take(i as int + 1) =~= all.take(i as int).push(i as int));
            all.take(i as int).lemma_filter_push(i as int, |k: int| purge_failed(results@[k]));
        }
        if r == PurgeFileResult::InvalidPath || r == PurgeFileResult::Failed {
            failed.push(i);
        }
        if r == PurgeFileResult::InvalidPath {
            permanent = true;
        }
        i = i + 1;
        proof {
            assert(failed@ =~= all.take(i as int).filter(|k: int| purge_failed(results@[k])).map_values(|k: int| k as usize));
        }
    }
    assert(all.take(results@.len() as int) =~= all);
    PurgeSummary { failed, permanent }
}

/// Where purging a trashed work stands.
#[derive(Clone, Copy, Debug, PartialEq, Eq, Structural)]
pub enum PurgePhase {
    ReadingPayload,
    LoadingPlan,
    CheckingCompleted,
    Beginning,
    RemovingFiles,
    RecordingFailures { permanent: bool },
    Completing,
    Finished,
}

/// What the last call reported.
#[derive(Clone, Debug, PartialEq, Eq)]
pub enum PurgeEvent {
    PayloadRead { method: Option<DeletionMethod> },
    PayloadInvalid,
    PlanLoaded,
    PurgeCompleted { done: bool },
    Begun,
    /// All files were handled; this many failed.
    FilesHandled { failures: usize, permanent: bool },
    FailuresRecorded,
    Completed,
    StorageFailed(DbError),
}

/// The next call to make, or how the purge ended.
#[derive(Debug, PartialEq, Eq)]
pub enum PurgeAction {
    LoadPlan,
    CheckPurgeCompleted,
    BeginPurge,
    RemoveFiles,
    RecordFailures,
    CompletePurge,
    Complete(Result<(), TrashCleanupError>),
}

pub open spec fn purge_done(r: Result<(), TrashCleanupError>) -> (PurgePhase, PurgeAction) {
    (PurgePhase::Finished, PurgeAction::Complete(r))
}

pub open spec fn spec_purge_step(phase: PurgePhase, event: PurgeEvent) -> (PurgePhase, PurgeAction) {
    match (phase, event) {
        (PurgePhase::ReadingPayload, PurgeEvent::PayloadRead { method }) => match method {
            Some(_) => (PurgePhase::LoadingPlan, PurgeAction::LoadPlan),
            None => purge_done(Err(TrashCleanupError::InvalidPayload)),
        },
        (PurgePhase::ReadingPayload, PurgeEvent::PayloadInvalid) => purge_done(Err(TrashCleanupError::InvalidPayload)),
        (PurgePhase::LoadingPlan, PurgeEvent::PlanLoaded) => (PurgePhase::Beginning, PurgeAction::BeginPurge),
        (PurgePhase::LoadingPlan, PurgeEvent::StorageFailed(db)) => if db == DbError::NotFound {
            (PurgePhase::CheckingCompleted, PurgeAction::CheckPurgeCompleted)
        } else {
            purge_done(Err(TrashCleanupError::Database(db)))
        },
        (PurgePhase::CheckingCompleted, PurgeEvent::PurgeCompleted { done }) => if done {
            (PurgePhase::Completing, PurgeAction::CompletePurge)
        } else {
            purge_done(Err(TrashCleanupError::Database(DbError::NotFound)))
        },
        (PurgePhase::Beginning, PurgeEvent::Begun) => (PurgePhase::RemovingFiles, PurgeAction::RemoveFiles),
        (PurgePhase::RemovingFiles, PurgeEvent::FilesHandled { failures, permanent }) => if failures > 0 {
            (PurgePhase::RecordingFailures { permanent }, PurgeAction::RecordFailures)
        } else {
            (PurgePhase::Completing, PurgeAction::CompletePurge)
        },
        (PurgePhase::RecordingFailures { permanent }, PurgeEvent::FailuresRecorded) =>
            purge_done(Err(if permanent { TrashCleanupError::InvalidMediaPath } else { TrashCleanupError::FileSystem })),
        (PurgePhase::Completing, PurgeEvent::Completed) => purge_done(Ok(())),
        (_, PurgeEvent::StorageFailed(db)) => purge_done(Err(TrashCleanupError::Database(db))),
        _ => purge_done(Err(TrashCleanupError::InvalidPayload)),
    }
}

/// One decision of purging a trashed work. Only the two deletion methods
/// are accepted; a work whose plan is gone because an earlier attempt
/// already purged it is completed again; otherwise every file is handled
/// before anything is decided, and any failure is recorded and fails the
/// job (permanently when a path escapes the media root); the purge is
/// completed only when every file is gone.
pub fn purge_step(phase: PurgePhase, event: PurgeEvent) -> (next: (PurgePhase, PurgeAction))
    ensures
        next == spec_purge_step(phase, event),
{
    match (phase, event) {
        (PurgePhase::ReadingPayload, PurgeEvent::PayloadRead { method }) => match method {
            Some(_) => (PurgePhase::LoadingPlan, PurgeAction::LoadPlan),
            None => (PurgePhase::Finished, PurgeAction::Complete(Err(TrashCleanupError::InvalidPayload))),
        },
        (PurgePhase::ReadingPayload, PurgeEvent::PayloadInvalid) =>
            (PurgePhase::Finished, PurgeAction::Complete(Err(TrashCleanupError::InvalidPayload))),
        (PurgePhase::LoadingPlan, PurgeEvent::PlanLoaded) => (PurgePhase::Beginning, PurgeAction::BeginPurge),
        (PurgePhase::LoadingPlan, PurgeEvent::StorageFailed(db)) => match db {
            DbError::NotFound => (PurgePhase::CheckingCompleted, PurgeAction::CheckPurgeCompleted),
            _ => (PurgePhase::Finished, PurgeAction::Complete(Err(TrashCleanupError::Database(db)))),
        },
        (PurgePhase::CheckingCompleted, PurgeEvent::PurgeCompleted { done }) => if done {
            (PurgePhase::Completing, PurgeAction::CompletePurge)
        } else {
            (PurgePhase::Finished, PurgeAction::Complete(Err(TrashCleanupError::Database(DbError::NotFound))))
        },
        (PurgePhase::Beginning, PurgeEvent::Begun) => (PurgePhase::RemovingFiles, PurgeAction::RemoveFiles),
        (PurgePhase::RemovingFiles, PurgeEvent::FilesHandled { failures, permanent }) => if failures > 0 {
            (PurgePhase::RecordingFailures { permanent }, PurgeAction::RecordFailures)
        } else {
            (PurgePhase::Completing, PurgeAction::CompletePurge)
        },
        (PurgePhase::RecordingFailures { permanent }, PurgeEvent::FailuresRecorded) => (
            PurgePhase::Finished,
            PurgeAction::Complete(Err(if permanent { TrashCleanupError::InvalidMediaPath } else { TrashCleanupError::FileSystem })),
        ),
        (PurgePhase::Completing, PurgeEvent::Completed) => (PurgePhase::Finished, PurgeAction::Complete(Ok(()))),
        (_, PurgeEvent::StorageFailed(db)) => (PurgePhase::Finished, PurgeAction::Complete(Err(TrashCleanupError::Database(db)))),
        _ => (PurgePhase::Finished, PurgeAction::Complete(Err(TrashCleanupError::InvalidPayload))),
    }
}

/// A purge is completed only when no file failed (or an earlier attempt
/// finished it), and a recorded failure always fails the job.
pub proof fn lemma_purge_completes_only_clean(phase: PurgePhase, event: PurgeEvent)
    ensures
        ({
            let (next, action) = spec_purge_step(phase, event);
            action == PurgeAction::CompletePurge ==> (
                (phase == PurgePhase::RemovingFiles && (event matches PurgeEvent::FilesHandled { failures, .. } && failures == 0))
                || (phase == PurgePhase::CheckingCompleted && event == (PurgeEvent::PurgeCompleted { done: true })))
        }),
        ({
            let (next, action) = spec_purge_step(phase, event);
            phase is RecordingFailures && event == PurgeEvent::FailuresRecorded ==> action matches PurgeAction::Complete(Err(_))
        }),
{
}

} // verus!
