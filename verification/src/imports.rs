//! Importing a Pixiv work or an artist's works: the strategy a run was
//! queued with, what one processed work contributes to the run, how an
//! artist's works are counted, and what a failed run records.

use vstd::prelude::*;
use crate::domain::{DbError, JobErrorClass};
use crate::jobs::spec_database_error_class;
use crate::pixiv_works::{PixivWorkProcessingError, ProcessedPixivWork, spec_processing_error_class};

verus! {

/// What an import run targets.
#[derive(Clone, Copy, Debug, PartialEq, Eq, Structural)]
pub enum ImportKind {
    Work,
    Artist,
}

/// Where an import run stands.
#[derive(Clone, Copy, Debug, PartialEq, Eq, Structural)]
pub enum ImportRunStatus {
    Queued,
    Running,
    Ignored,
    MetadataSaved,
    DownloadQueued,
    BlockedByDeletionMarker,
    Failed,
    Cancelled,
}

impl ImportRunStatus {
    /// A run that ended without failing.
    pub open spec fn spec_is_successful_terminal(self) -> bool {
        self == ImportRunStatus::Ignored || self == ImportRunStatus::MetadataSaved
            || self == ImportRunStatus::DownloadQueued || self == ImportRunStatus::BlockedByDeletionMarker
    }

    pub fn is_successful_terminal(self) -> (b: bool)
        ensures
            b == self.spec_is_successful_terminal(),
    {
        match self {
            ImportRunStatus::Ignored | ImportRunStatus::MetadataSaved | ImportRunStatus::DownloadQueued
            | ImportRunStatus::BlockedByDeletionMarker => true,
            _ => false,
        }
    }
}

/// How the works of a run are chosen.
#[derive(Clone, Copy, Debug, PartialEq, Eq, Structural)]
pub enum ImportStrategy {
    Default,
    Rule { rule_id: u128 },
    Forced,
}

/// The strategy a stored run was queued with: forced wins, then a rule.
pub fn stored_strategy(forced: bool, rule_id: Option<u128>) -> (s: ImportStrategy)
    ensures
        s == (if forced {
            ImportStrategy::Forced
        } else {
            match rule_id {
                Some(id) => ImportStrategy::Rule { rule_id: id },
                None => ImportStrategy::Default,
            }
        }),
{
    if forced {
        ImportStrategy::Forced
    } else {
        match rule_id {
            Some(id) => ImportStrategy::Rule { rule_id: id },
            None => ImportStrategy::Default,
        }
    }
}

/// What queueing with a strategy asks of the run: forced or not, and
/// which rule's published version decides.
pub fn queue_settings(strategy: ImportStrategy) -> (r: (bool, Option<u128>))
    ensures
        r == (match strategy {
            ImportStrategy::Default => (false, None::<u128>),
            ImportStrategy::Forced => (true, None::<u128>),
            ImportStrategy::Rule { rule_id } => (false, Some(rule_id)),
        }),
{
    match strategy {
        ImportStrategy::Default => (false, None),
        ImportStrategy::Forced => (true, None),
        ImportStrategy::Rule { rule_id } => (false, Some(rule_id)),
    }
}

/// A strategy read back from the run it queued is the same strategy.
pub proof fn lemma_strategy_round_trip(strategy: ImportStrategy)
    ensures
        ({
            let (forced, rule) = match strategy {
                ImportStrategy::Default => (false, None::<u128>),
                ImportStrategy::Forced => (true, None::<u128>),
                ImportStrategy::Rule { rule_id } => (false, Some(rule_id)),
            };
            strategy == (if forced {
                ImportStrategy::Forced
            } else {
                match rule {
                    Some(id) => ImportStrategy::Rule { rule_id: id },
                    None => ImportStrategy::Default,
                }
            })
        }),
{
}

/// The outcome of a run or of one of its works.
#[derive(Clone, Copy, Debug, PartialEq, Eq, Structural)]
pub struct ImportResult {
    pub id: u128,
    pub kind: ImportKind,
    pub status: ImportRunStatus,
    pub discovered_count: i32,
    pub saved_count: i32,
}

/// What a completed import job hands to the job store.
#[derive(Clone, Copy, Debug, PartialEq, Eq, Structural)]
pub struct ImportJobCompletion {
    pub status: ImportRunStatus,
    pub discovered_count: i32,
    pub saved_count: i32,
}

/// An attempt's outcome, with the class of its failure if it failed.
#[derive(Clone, Copy, Debug, PartialEq, Eq, Structural)]
pub struct ImportAttemptResult {
    pub result: ImportResult,
    pub error_class: Option<JobErrorClass>,
}

/// Why an import failed.
#[derive(Clone, Debug, PartialEq, Eq)]
pub enum ImportServiceError {
    Storage(DbError),
    Pixiv(JobErrorClass),
    Processing(PixivWorkProcessingError),
    RuleDocument,
}

pub open spec fn spec_import_error_class(e: ImportServiceError) -> JobErrorClass {
    match e {
        ImportServiceError::Pixiv(c) => c,
        ImportServiceError::Processing(p) => spec_processing_error_class(p),
        ImportServiceError::Storage(db) => spec_database_error_class(db),
        ImportServiceError::RuleDocument => JobErrorClass::Permanent,
    }
}

impl ImportServiceError {
    pub fn error_class(&self) -> (c: JobErrorClass)
        ensures
            c == spec_import_error_class(*self),
    {
        match self {
            ImportServiceError::Pixiv(c) => *c,
            ImportServiceError::Processing(p) => p.error_class(),
            ImportServiceError::Storage(db) => crate::jobs::database_error_class(db),
            ImportServiceError::RuleDocument => JobErrorClass::Permanent,
        }
    }
}

/// What is recorded about a work a run handled.
#[derive(Clone, Copy, Debug, PartialEq, Eq, Structural)]
pub enum CandidateAction {
    Blocked,
    MetadataOnly,
    Download,
}

pub open spec fn candidate_action_name(a: CandidateAction) -> Seq<char> {
    match a {
        CandidateAction::Blocked => "blocked"@,
        CandidateAction::MetadataOnly => "metadata_only"@,
        CandidateAction::Download => "download"@,
    }
}

impl CandidateAction {
    pub fn as_str(self) -> (s: &'static str)
        ensures
            s@ == candidate_action_name(self),
    {
        match self {
            CandidateAction::Blocked => "blocked",
            CandidateAction::MetadataOnly => "metadata_only",
            CandidateAction::Download => "download",
        }
    }
}

pub open spec fn spec_work_import(run_id: u128, processed: ProcessedPixivWork) -> (ImportResult, Option<CandidateAction>) {
    match processed {
        ProcessedPixivWork::BlockedByDeletionMarker => (
            ImportResult { id: run_id, kind: ImportKind::Work, status: ImportRunStatus::BlockedByDeletionMarker, discovered_count: 1, saved_count: 0 },
            Some(CandidateAction::Blocked),
        ),
        ProcessedPixivWork::Ignored => (
            ImportResult { id: run_id, kind: ImportKind::Work, status: ImportRunStatus::Ignored, discovered_count: 1, saved_count: 0 },
            None,
        ),
        ProcessedPixivWork::MetadataSaved { .. } => (
            ImportResult { id: run_id, kind: ImportKind::Work, status: ImportRunStatus::MetadataSaved, discovered_count: 1, saved_count: 1 },
            Some(CandidateAction::MetadataOnly),
        ),
        ProcessedPixivWork::DownloadQueued { .. } => (
            ImportResult { id: run_id, kind: ImportKind::Work, status: ImportRunStatus::DownloadQueued, discovered_count: 1, saved_count: 1 },
            Some(CandidateAction::Download),
        ),
    }
}

/// What one processed work contributes to a run: every work counts as
/// discovered, a saved one (metadata or download) as saved; every outcome
/// but an ignored work is recorded as a candidate of the run.
pub fn work_import(run_id: u128, processed: ProcessedPixivWork) -> (r: (ImportResult, Option<CandidateAction>))
    ensures
        r == spec_work_import(run_id, processed),
{
    match processed {
        ProcessedPixivWork::BlockedByDeletionMarker => (
            ImportResult { id: run_id, kind: ImportKind::Work, status: ImportRunStatus::BlockedByDeletionMarker, discovered_count: 1, saved_count: 0 },
            Some(CandidateAction::Blocked),
        ),
        ProcessedPixivWork::Ignored => (
            ImportResult { id: run_id, kind: ImportKind::Work, status: ImportRunStatus::Ignored, discovered_count: 1, saved_count: 0 },
            None,
        ),
        ProcessedPixivWork::MetadataSaved { .. } => (
            ImportResult { id: run_id, kind: ImportKind::Work, status: ImportRunStatus::MetadataSaved, discovered_count: 1, saved_count: 1 },
            Some(CandidateAction::MetadataOnly),
        ),
        ProcessedPixivWork::DownloadQueued { .. } => (
            ImportResult { id: run_id, kind: ImportKind::Work, status: ImportRunStatus::DownloadQueued, discovered_count: 1, saved_count: 1 },
            Some(CandidateAction::Download),
        ),
    }
}

/// The ids in order of their first appearance, each once.
pub open spec fn first_occurrences(s: Seq<i64>) -> Seq<i64>
    decreases s.len(),
{
    if s.len() == 0 {
        Seq::empty()
    } else {
        let prefix = first_occurrences(s.drop_last());
        if prefix.contains(s.last()) {
            prefix
        } else {
            prefix.push(s.last())
        }
    }
}

/// The first occurrences hold every id once and no other.
proof fn lemma_first_occurrences(s: Seq<i64>)
    ensures
        first_occurrences(s).no_duplicates(),
        forall|x: i64| first_occurrences(s).contains(x) <==> s.contains(x),
    decreases s.len(),
{
    if s.len() > 0 {
        lemma_first_occurrences(s.drop_last());
        let prefix = first_occurrences(s.drop_last());
        assert forall|x: i64| first_occurrences(s).contains(x) <==> s.contains(x) by {
            if s.contains(x) && x != s.last() {
                let i = choose|i: int| 0 <= i < s.len() && s[i] == x;
                assert(s.drop_last()[i] == x);
            }
            if s.drop_last().contains(x) {
                let i = choose|i: int| 0 <= i < s.drop_last().len() && s.drop_last()[i] == x;
                assert(s[i] == x);
            }
            if !prefix.contains(s.last()) {
                let p2 = prefix.push(s.last());
                if p2.contains(x) {
                    let i = choose|i: int| 0 <= i < p2.len() && p2[i] == x;
                    if i < prefix.len() {
                        assert(prefix[i] == x);
                    }
                }
                if prefix.contains(x) {
                    let i = choose|i: int| 0 <= i < prefix.len() && prefix[i] == x;
                    assert(p2[i] == x);
                }
                if x == s.last() {
                    assert(p2[prefix.len() as int] == x);
                }
            }
            assert(s[s.len() - 1] == s.last());
        }
    }
}

/// An artist's work ids without repeats, in the order first listed.
pub fn unique_work_ids(ids: &Vec<i64>) -> (unique: Vec<i64>)
    ensures
        unique@ == first_occurrences(ids@),
        unique@.no_duplicates(),
        forall|x: i64| unique@.contains(x) <==> ids@.contains(x),
{
    let mut unique: Vec<i64> = Vec::new();
    let mut i: usize = 0;
    while i < ids.len()
        invariant
            i <= ids@.len(),
            unique@ == first_occurrences(ids@.take(i as int)),
        decreases ids.len() - i,
    {
        let id = ids[i];
        let mut seen = false;
        let mut k: usize = 0;
        while k < unique.len()
            invariant
                k <= unique@.len(),
                seen <==> exists|j: int| 0 <= j < k && unique@[j] == id,
            decreases unique.len() - k,
        {
            if unique[k] == id {
                seen = true;
            }
            k = k + 1;
        }
        proof {
            assert(ids@.take(i as int + 1).drop_last() =~= ids@.take(i as int));
            assert(ids@.take(i as int + 1).last() == id);
        }
        if !seen {
            unique.push(id);
        }
        i = i + 1;
    }
    proof {
        assert(ids@.take(ids@.len() as int) =~= ids@);
        lemma_first_occurrences(ids@);
    }
    unique
}

pub open spec fn counts_as_saved(status: ImportRunStatus) -> bool {
    status == ImportRunStatus::MetadataSaved || status == ImportRunStatus::DownloadQueued
}

pub open spec fn saved_count(statuses: Seq<ImportRunStatus>) -> nat
    decreases statuses.len(),
{
    if statuses.len() == 0 {
        0
    } else {
        saved_count(statuses.drop_last()) + if counts_as_saved(statuses.last()) { 1nat } else { 0nat }
    }
}

/// No more works are saved than were discovered.
proof fn lemma_saved_count_bounded(statuses: Seq<ImportRunStatus>)
    ensures
        saved_count(statuses) <= statuses.len(),
    decreases statuses.len(),
{
    if statuses.len() > 0 {
        lemma_saved_count_bounded(statuses.drop_last());
    }
}

pub open spec fn spec_artist_import(run_id: u128, discovered: nat, saved: nat) -> ImportResult {
    ImportResult {
        id: run_id,
        kind: ImportKind::Artist,
        status: if saved == 0 { ImportRunStatus::Ignored } else { ImportRunStatus::MetadataSaved },
        discovered_count: if discovered <= i32::MAX { discovered as i32 } else { i32::MAX },
        saved_count: saved as i32,
    }
}

/// An artist run's outcome from the statuses of its distinct works: it
/// counts every distinct work as discovered (capped at `i32::MAX`) and
/// the saved ones as saved; a run that saved nothing is ignored.
pub fn artist_import(run_id: u128, statuses: &Vec<ImportRunStatus>) -> (r: ImportResult)
    requires
        statuses@.len() <= i32::MAX,
    ensures
        r == spec_artist_import(run_id, statuses@.len(), saved_count(statuses@)),
{
    let mut saved: i32 = 0;
    let mut i: usize = 0;
    while i < statuses.len()
        invariant
            i <= statuses@.len(),
            statuses@.len() <= i32::MAX,
            saved == saved_count(statuses@.take(i as int)),
        decreases statuses.len() - i,
    {
        proof {
            assert(statuses@.take(i as int + 1).drop_last() =~= statuses@.take(i as int));
            lemma_saved_count_bounded(statuses@.take(i as int));
        }
        let s = statuses[i];
        if s == ImportRunStatus::MetadataSaved || s == ImportRunStatus::DownloadQueued {
            saved = saved + 1;
        }
        i = i + 1;
    }
    proof {
        assert(statuses@.take(statuses@.len() as int) =~= statuses@);
    }
    let discovered: i32 = statuses.len() as i32;
    ImportResult {
        id: run_id,
        kind: ImportKind::Artist,
        status: if saved == 0 { ImportRunStatus::Ignored } else { ImportRunStatus::MetadataSaved },
        discovered_count: discovered,
        saved_count: saved,
    }
}

/// What finishing a run records.
#[derive(Clone, Copy, Debug, PartialEq, Eq, Structural)]
pub struct RunFinish {
    pub status: ImportRunStatus,
    pub discovered_count: i32,
    pub saved_count: i32,
    pub error_class: Option<JobErrorClass>,
}

/// A run that worked records its result; a failed one records the failure
/// class with nothing discovered or saved.
pub fn run_finish(result: &Result<ImportResult, ImportServiceError>) -> (f: RunFinish)
    ensures
        f == (match result {
            Ok(r) => RunFinish { status: r.status, discovered_count: r.discovered_count, saved_count: r.saved_count, error_class: None },
            Err(e) => RunFinish { status: ImportRunStatus::Failed, discovered_count: 0, saved_count: 0, error_class: Some(spec_import_error_class(*e)) },
        }),
{
    match result {
        Ok(r) => RunFinish { status: r.status, discovered_count: r.discovered_count, saved_count: r.saved_count, error_class: None },
        Err(e) => RunFinish { status: ImportRunStatus::Failed, discovered_count: 0, saved_count: 0, error_class: Some(e.error_class()) },
    }
}

/// A failed attempt: nothing discovered or saved, and its class.
pub fn failed_attempt(run_id: u128, kind: ImportKind, error_class: JobErrorClass) -> (a: ImportAttemptResult)
    ensures
        a == (ImportAttemptResult {
            result: ImportResult { id: run_id, kind, status: ImportRunStatus::Failed, discovered_count: 0, saved_count: 0 },
            error_class: Some(error_class),
        }),
{
    ImportAttemptResult {
        result: ImportResult { id: run_id, kind, status: ImportRunStatus::Failed, discovered_count: 0, saved_count: 0 },
        error_class: Some(error_class),
    }
}

/// What an import job does with the run it was claimed for.
#[derive(Clone, Copy, Debug, PartialEq, Eq, Structural)]
pub enum StoredRunDecision {
    /// The run already ended well or was cancelled: the job is done.
    Complete,
    /// The run already failed: the job fails with the stored failure.
    RepeatFailure,
    /// Run the import.
    Execute,
}

pub fn import_job_decision(status: ImportRunStatus) -> (d: StoredRunDecision)
    ensures
        d == (if status.spec_is_successful_terminal() || status == ImportRunStatus::Cancelled {
            StoredRunDecision::Complete
        } else if status == ImportRunStatus::Failed {
            StoredRunDecision::RepeatFailure
        } else {
            StoredRunDecision::Execute
        }),
{
    if status.is_successful_terminal() || status == ImportRunStatus::Cancelled {
        StoredRunDecision::Complete
    } else if status == ImportRunStatus::Failed {
        StoredRunDecision::RepeatFailure
    } else {
        StoredRunDecision::Execute
    }
}

} // verus!
