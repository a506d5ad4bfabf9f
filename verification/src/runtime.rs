//! The worker runtime's decisions: what to do with a claimed job and the
//! executor's outcome, how a lost heartbeat is resolved, how finished
//! tasks are judged, and the worker's environment settings.

use vstd::prelude::*;
use crate::domain::{DbError, JobErrorClass};
use crate::jobs::{QueueQuotaRotation, QueueQuotaWeights, spec_quota_sequence};
use crate::media::StorageWriteStatus;
use crate::system::StorageCapacity;
use crate::text::{chars_of, push_char, spec_trim, str_eq, trim_bounds};

verus! {

/// The executor's outcome, as far as the runtime acts on it.
#[derive(Clone, Copy, Debug, PartialEq, Eq, Structural)]
pub enum OutcomeKind {
    Completed,
    Finalized,
    WaitingStorage,
    Failed { error_class: JobErrorClass, retry_after_seconds: Option<i64> },
}

/// The job store call whose result decides the runtime's answer.
#[derive(Clone, Copy, Debug, PartialEq, Eq, Structural)]
pub enum TransitionStep {
    Completing,
    Waiting,
    Failing,
    MarkingUnregistered,
}

/// Why processing a claimed job failed.
#[derive(Clone, Debug, PartialEq, Eq)]
pub enum RuntimeError {
    Claim(DbError),
    Execution(DbError),
    Classification(DbError),
    Transition { step: TransitionStep, error: DbError },
}

/// Where processing one selection stands.
#[derive(Clone, Debug, PartialEq, Eq)]
pub enum SelectionPhase {
    Claiming,
    Executing,
    Classifying { error_class: JobErrorClass },
    Transitioning { step: TransitionStep },
    CheckingCancellation { step: TransitionStep, error: DbError },
    Finished,
}

/// What the last call reported.
#[derive(Clone, Debug, PartialEq, Eq)]
pub enum SelectionEvent {
    /// A job was claimed (`Some`, with whether an executor is registered
    /// for its kind) or none was available.
    Claimed(Option<bool>),
    ClaimFailed(DbError),
    /// The executor's outcome, or `None` when the job was cancelled while
    /// it ran.
    Executed(Option<OutcomeKind>),
    ExecutionFailed(DbError),
    FailureClassified,
    ClassificationFailed(DbError),
    TransitionSucceeded,
    TransitionFailed(DbError),
    CancellationChecked { cancelled: bool },
}

/// The next call to make, or the answer: whether a job was processed.
#[derive(Debug, PartialEq, Eq)]
pub enum SelectionAction {
    Execute,
    CompleteJob,
    WaitForStorage,
    ClassifyFailure { error_class: JobErrorClass, retry_after_seconds: Option<i64> },
    ApplyFailure { error_class: JobErrorClass },
    /// Fail the job permanently: no executor handles its kind. The failure
    /// is stored with `unregistered_failure()`.
    FailUnregistered,
    CheckCancelled,
    Complete(Result<bool, RuntimeError>),
}

pub open spec fn is_conflict(error: DbError) -> bool {
    error == DbError::RevisionConflict || error == DbError::LeaseConflict
}

pub open spec fn selection_done(r: Result<bool, RuntimeError>) -> (SelectionPhase, SelectionAction) {
    (SelectionPhase::Finished, SelectionAction::Complete(r))
}

pub open spec fn spec_selection_step(phase: SelectionPhase, event: SelectionEvent) -> (SelectionPhase, SelectionAction) {
    match (phase, event) {
        (SelectionPhase::Claiming, SelectionEvent::Claimed(job)) => match job {
            None => selection_done(Ok(false)),
            Some(registered) => if registered {
                (SelectionPhase::Executing, SelectionAction::Execute)
            } else {
                (SelectionPhase::Transitioning { step: TransitionStep::MarkingUnregistered }, SelectionAction::FailUnregistered)
            },
        },
        (SelectionPhase::Claiming, SelectionEvent::ClaimFailed(e)) => selection_done(Err(RuntimeError::Claim(e))),
        (SelectionPhase::Executing, SelectionEvent::Executed(outcome)) => match outcome {
            None => selection_done(Ok(true)),
            Some(OutcomeKind::Completed) => (SelectionPhase::Transitioning { step: TransitionStep::Completing }, SelectionAction::CompleteJob),
            Some(OutcomeKind::Finalized) => selection_done(Ok(true)),
            Some(OutcomeKind::WaitingStorage) => (SelectionPhase::Transitioning { step: TransitionStep::Waiting }, SelectionAction::WaitForStorage),
            Some(OutcomeKind::Failed { error_class, retry_after_seconds }) =>
                (SelectionPhase::Classifying { error_class }, SelectionAction::ClassifyFailure { error_class, retry_after_seconds }),
        },
        (SelectionPhase::Executing, SelectionEvent::ExecutionFailed(e)) => selection_done(Err(RuntimeError::Execution(e))),
        (SelectionPhase::Classifying { error_class }, SelectionEvent::FailureClassified) =>
            (SelectionPhase::Transitioning { step: TransitionStep::Failing }, SelectionAction::ApplyFailure { error_class }),
        (SelectionPhase::Classifying { .. }, SelectionEvent::ClassificationFailed(e)) => selection_done(Err(RuntimeError::Classification(e))),
        (SelectionPhase::Transitioning { .. }, SelectionEvent::TransitionSucceeded) => selection_done(Ok(true)),
        (SelectionPhase::Transitioning { step }, SelectionEvent::TransitionFailed(error)) => if is_conflict(error) {
            (SelectionPhase::CheckingCancellation { step, error }, SelectionAction::CheckCancelled)
        } else {
            selection_done(Err(RuntimeError::Transition { step, error }))
        },
        (SelectionPhase::CheckingCancellation { step, error }, SelectionEvent::CancellationChecked { cancelled }) => if cancelled {
            selection_done(Ok(true))
        } else {
            selection_done(Err(RuntimeError::Transition { step, error }))
        },
        _ => selection_done(Ok(true)),
    }
}

/// One decision of processing a claimed job. No job means nothing was
/// processed; a job of an unregistered kind fails permanently; a completed
/// job is completed in the store, a job waiting for storage is parked, a
/// failure is classified by the retry policy and applied; a job the
/// executor finalized itself, or that was cancelled while it ran, needs
/// nothing more. A store call refused by a revision or lease conflict is
/// accepted when the job turns out to be cancelled, and is a failure
/// otherwise.
pub fn selection_step(phase: SelectionPhase, event: SelectionEvent) -> (next: (SelectionPhase, SelectionAction))
    ensures
        next == spec_selection_step(phase, event),
{
    match (phase, event) {
        (SelectionPhase::Claiming, SelectionEvent::Claimed(job)) => match job {
            None => (SelectionPhase::Finished, SelectionAction::Complete(Ok(false))),
            Some(registered) => if registered {
                (SelectionPhase::Executing, SelectionAction::Execute)
            } else {
                (SelectionPhase::Transitioning { step: TransitionStep::MarkingUnregistered }, SelectionAction::FailUnregistered)
            },
        },
        (SelectionPhase::Claiming, SelectionEvent::ClaimFailed(e)) =>
            (SelectionPhase::Finished, SelectionAction::Complete(Err(RuntimeError::Claim(e)))),
        (SelectionPhase::Executing, SelectionEvent::Executed(outcome)) => match outcome {
            None => (SelectionPhase::Finished, SelectionAction::Complete(Ok(true))),
            Some(OutcomeKind::Completed) => (SelectionPhase::Transitioning { step: TransitionStep::Completing }, SelectionAction::CompleteJob),
            Some(OutcomeKind::Finalized) => (SelectionPhase::Finished, SelectionAction::Complete(Ok(true))),
            Some(OutcomeKind::WaitingStorage) => (SelectionPhase::Transitioning { step: TransitionStep::Waiting }, SelectionAction::WaitForStorage),
            Some(OutcomeKind::Failed { error_class, retry_after_seconds }) =>
                (SelectionPhase::Classifying { error_class }, SelectionAction::ClassifyFailure { error_class, retry_after_seconds }),
        },
        (SelectionPhase::Executing, SelectionEvent::ExecutionFailed(e)) =>
            (SelectionPhase::Finished, SelectionAction::Complete(Err(RuntimeError::Execution(e)))),
        (SelectionPhase::Classifying { error_class }, SelectionEvent::FailureClassified) =>
            (SelectionPhase::Transitioning { step: TransitionStep::Failing }, SelectionAction::ApplyFailure { error_class }),
        (SelectionPhase::Classifying { .. }, SelectionEvent::ClassificationFailed(e)) =>
            (SelectionPhase::Finished, SelectionAction::Complete(Err(RuntimeError::Classification(e)))),
        (SelectionPhase::Transitioning { .. }, SelectionEvent::TransitionSucceeded) =>
            (SelectionPhase::Finished, SelectionAction::Complete(Ok(true))),
        (SelectionPhase::Transitioning { step }, SelectionEvent::TransitionFailed(error)) => match error {
            DbError::RevisionConflict | DbError::LeaseConflict =>
                (SelectionPhase::CheckingCancellation { step, error }, SelectionAction::CheckCancelled),
            _ => (SelectionPhase::Finished, SelectionAction::Complete(Err(RuntimeError::Transition { step, error }))),
        },
        (SelectionPhase::CheckingCancellation { step, error }, SelectionEvent::CancellationChecked { cancelled }) => if cancelled {
            (SelectionPhase::Finished, SelectionAction::Complete(Ok(true)))
        } else {
            (SelectionPhase::Finished, SelectionAction::Complete(Err(RuntimeError::Transition { step, error })))
        },
        _ => (SelectionPhase::Finished, SelectionAction::Complete(Ok(true))),
    }
}

/// The events that the call made in a phase can report.
pub open spec fn selection_event_expected(phase: SelectionPhase, event: SelectionEvent) -> bool {
    match phase {
        SelectionPhase::Claiming => event is Claimed || event is ClaimFailed,
        SelectionPhase::Executing => event is Executed || event is ExecutionFailed,
        SelectionPhase::Classifying { .. } => event == SelectionEvent::FailureClassified || event is ClassificationFailed,
        SelectionPhase::Transitioning { .. } => event == SelectionEvent::TransitionSucceeded || event is TransitionFailed,
        SelectionPhase::CheckingCancellation { .. } => event is CancellationChecked,
        SelectionPhase::Finished => false,
    }
}

/// On every event its call can report, a selection counts as processed
/// (`Ok(true)`) exactly when the executor finalized the job itself or saw
/// it cancelled, when the store accepted the job's transition, or when a
/// refused transition met a cancelled job.
pub proof fn lemma_selection_answers_expected_events(phase: SelectionPhase, event: SelectionEvent)
    requires
        selection_event_expected(phase, event),
    ensures
        spec_selection_step(phase, event).1 == SelectionAction::Complete(Ok(true)) <==> (
            (phase == SelectionPhase::Executing && (event == SelectionEvent::Executed(None)
                || event == SelectionEvent::Executed(Some(OutcomeKind::Finalized))))
            || (phase is Transitioning && event == SelectionEvent::TransitionSucceeded)
            || (phase is CheckingCancellation && event == (SelectionEvent::CancellationChecked { cancelled: true }))),
{
}

/// A failure is applied only after the retry policy classified it, with
/// the executor's class; only an empty queue answers `false`; a conflict is
/// forgiven only for a cancelled job, any other failed store call fails;
/// a job waiting for storage is parked without counting as a failure; a
/// job cancelled while it ran needs nothing more.
pub proof fn lemma_selection_answers(phase: SelectionPhase, event: SelectionEvent)
    ensures
        ({
            let (next, action) = spec_selection_step(phase, event);
            action matches SelectionAction::ApplyFailure { error_class } ==> (phase == (SelectionPhase::Classifying { error_class })
                && event == SelectionEvent::FailureClassified)
        }),
        ({
            let (next, action) = spec_selection_step(phase, event);
            action == SelectionAction::Complete(Ok(false)) ==> (phase == SelectionPhase::Claiming && event == SelectionEvent::Claimed(None))
        }),
        ({
            let (next, action) = spec_selection_step(phase, event);
            (phase is CheckingCancellation && event is CancellationChecked && action == SelectionAction::Complete(Ok(true)))
                ==> event == (SelectionEvent::CancellationChecked { cancelled: true })
        }),
        ({
            let (next, action) = spec_selection_step(phase, event);
            (phase is Transitioning && (event matches SelectionEvent::TransitionFailed(e) && !is_conflict(e)))
                ==> action matches SelectionAction::Complete(Err(_))
        }),
        phase == SelectionPhase::Executing && event == SelectionEvent::Executed(Some(OutcomeKind::WaitingStorage))
            ==> spec_selection_step(phase, event).1 == SelectionAction::WaitForStorage,
        phase == SelectionPhase::Executing && event == SelectionEvent::Executed(None)
            ==> spec_selection_step(phase, event).1 == SelectionAction::Complete(Ok(true)),
{
}

/// The state of a job looked up after a lost heartbeat.
#[derive(Clone, Copy, Debug, PartialEq, Eq, Structural)]
pub enum JobStateSeen {
    Cancelled,
    Completed,
    Other,
}

/// What a lost heartbeat means for the running executor.
#[derive(Clone, Copy, Debug, PartialEq, Eq, Structural)]
pub enum HeartbeatResolution {
    /// The job was cancelled: stop waiting and report nothing.
    Cancelled,
    /// The executor already committed the job: wait for its outcome.
    AwaitOutcome,
    /// The heartbeat failure is the answer.
    Fail,
}

/// Only a revision or lease conflict is worth looking the job up for.
pub fn heartbeat_needs_lookup(error: &DbError) -> (b: bool)
    ensures
        b == is_conflict(*error),
{
    match error {
        DbError::RevisionConflict | DbError::LeaseConflict => true,
        _ => false,
    }
}

/// After a conflicting heartbeat, a cancelled job stops the wait, a
/// completed one (committed by its executor) lets the outcome through,
/// anything else, or a failed lookup, fails.
pub fn resolve_heartbeat_failure(seen: Option<JobStateSeen>) -> (r: HeartbeatResolution)
    ensures
        r == (match seen {
            Some(JobStateSeen::Cancelled) => HeartbeatResolution::Cancelled,
            Some(JobStateSeen::Completed) => HeartbeatResolution::AwaitOutcome,
            _ => HeartbeatResolution::Fail,
        }),
{
    match seen {
        Some(JobStateSeen::Cancelled) => HeartbeatResolution::Cancelled,
        Some(JobStateSeen::Completed) => HeartbeatResolution::AwaitOutcome,
        _ => HeartbeatResolution::Fail,
    }
}

/// Why a finished worker task stops the runtime.
#[derive(Clone, Debug, PartialEq, Eq)]
pub enum TaskFailure<E, J> {
    /// The task returned an error.
    Failed(E),
    /// The task panicked or was aborted.
    Panicked(J),
}

/// The failure stored for a job whose kind no executor handles: a
/// permanent failure with the message "没有注册此任务类型的执行器" (no
/// executor is registered for this job kind).
pub fn unregistered_failure() -> (f: (JobErrorClass, &'static str))
    ensures
        f.0 == JobErrorClass::Permanent,
        f.1@ == "没有注册此任务类型的执行器"@,
{
    proof {
        reveal_strlit("没有注册此任务类型的执行器");
    }
    (JobErrorClass::Permanent, "没有注册此任务类型的执行器")
}

impl<E, J> TaskFailure<E, J> {
    /// The context the runtime reports a failure with: a task's own error
    /// is reported as it is; a panic is reported as an "executor panic"
    /// over the join error, so that it is returned rather than dropped.
    pub fn context(&self) -> (c: Option<&'static str>)
        ensures
            match self {
                TaskFailure::Failed(_) => c is None,
                TaskFailure::Panicked(_) => c matches Some(text) && text@ == "executor panic"@,
            },
    {
        match self {
            TaskFailure::Failed(_) => None,
            TaskFailure::Panicked(_) => {
                proof {
                    reveal_strlit("executor panic");
                }
                Some("executor panic")
            },
        }
    }
}

/// A task that returned, whatever it processed, is fine; its error, or its
/// panic, stops the runtime.
pub fn handle_task_result<E, J>(result: Result<Result<bool, E>, J>) -> (r: Result<(), TaskFailure<E, J>>)
    ensures
        r == (match result {
            Ok(Ok(_)) => Ok(()),
            Ok(Err(e)) => Err(TaskFailure::Failed(e)),
            Err(j) => Err(TaskFailure::Panicked(j)),
        }),
{
    match result {
        Ok(Ok(_)) => Ok(()),
        Ok(Err(e)) => Err(TaskFailure::Failed(e)),
        Err(j) => Err(TaskFailure::Panicked(j)),
    }
}

/// Why a worker environment setting is refused.
#[derive(Clone, Debug, PartialEq, Eq)]
pub enum EnvError {
    Missing { name: String },
    NotAbsolute { name: String },
    NotBoolean { name: String },
}

/// A required path setting must be set and absolute (start with `/`).
pub fn required_absolute_path_env(name: &str, value: Option<String>) -> (r: Result<String, EnvError>)
    ensures
        match value {
            None => r matches Err(EnvError::Missing { name: n }) && n@ == name@,
            Some(v) => if v@.len() > 0 && v@[0] == '/' {
                r == Ok::<String, EnvError>(v)
            } else {
                r matches Err(EnvError::NotAbsolute { name: n }) && n@ == name@
            },
        },
{
    match value {
        None => Err(EnvError::Missing { name: String::from_str(name) }),
        Some(v) => {
            if v.as_str().unicode_len() > 0 && v.as_str().get_char(0) == '/' {
                Ok(v)
            } else {
                Err(EnvError::NotAbsolute { name: String::from_str(name) })
            }
        },
    }
}

pub open spec fn spec_bool_setting(value: Seq<char>) -> Option<bool> {
    let v = crate::pixiv_works::spec_ascii_lowercase(spec_trim(value));
    if v == "1"@ || v == "true"@ || v == "yes"@ || v == "on"@ {
        Some(true)
    } else if v == "0"@ || v == "false"@ || v == "no"@ || v == "off"@ {
        Some(false)
    } else {
        None
    }
}

/// An optional switch: unset gives the default; otherwise, trimmed and in
/// any ASCII case, `1`, `true`, `yes`, `on` are on and `0`, `false`, `no`,
/// `off` are off; anything else is refused.
pub fn optional_bool_env(name: &str, value: Option<String>, default: bool) -> (r: Result<bool, EnvError>)
    ensures
        match value {
            None => r == Ok::<bool, EnvError>(default),
            Some(v) => match spec_bool_setting(v@) {
                Some(b) => r == Ok::<bool, EnvError>(b),
                None => r matches Err(EnvError::NotBoolean { name: n }) && n@ == name@,
            },
        },
{
    match value {
        None => Ok(default),
        Some(v) => {
            let chars = chars_of(v.as_str());
            let (from, to) = trim_bounds(&chars, 0, chars.len());
            let mut lowered = String::new();
            let mut i: usize = from;
            while i < to
                invariant
                    from <= i <= to,
                    to <= chars@.len(),
                    chars@ == v@,
                    (from as int, to as int) == crate::text::spec_trim_bounds(v@, 0, v@.len() as int),
                    lowered@ == crate::pixiv_works::spec_ascii_lowercase(chars@.subrange(from as int, i as int)),
                decreases to - i,
            {
                push_char(&mut lowered, crate::pixiv_works::lower_ascii_char(chars[i]));
                i = i + 1;
                assert(lowered@ =~= crate::pixiv_works::spec_ascii_lowercase(chars@.subrange(from as int, i as int)));
            }
            assert(chars@.subrange(from as int, to as int) == spec_trim(v@));
            let l = lowered.as_str();
            if str_eq(l, "1") || str_eq(l, "true") || str_eq(l, "yes") || str_eq(l, "on") {
                Ok(true)
            } else if str_eq(l, "0") || str_eq(l, "false") || str_eq(l, "no") || str_eq(l, "off") {
                Ok(false)
            } else {
                Err(EnvError::NotBoolean { name: String::from_str(name) })
            }
        },
    }
}

/// Guards writes to the media volume: writing stops once the free space
/// is down to the threshold.
#[derive(Debug, PartialEq, Eq)]
pub struct StorageWriteGuard {
    media_root: String,
    stop_threshold_bytes: u64,
}

impl Clone for StorageWriteGuard {
    /// A clone guards the same media root with the same threshold.
    fn clone(&self) -> (copy: Self)
        ensures
            copy.media_root_text() == self.media_root_text(),
            copy.threshold() == self.threshold(),
    {
        StorageWriteGuard { media_root: self.media_root.clone(), stop_threshold_bytes: self.stop_threshold_bytes }
    }
}

impl StorageWriteGuard {
    pub fn new(media_root: String, stop_threshold_bytes: u64) -> (g: Self)
        ensures
            g.media_root_text() == media_root@,
            g.threshold() == stop_threshold_bytes,
    {
        StorageWriteGuard { media_root, stop_threshold_bytes }
    }

    pub closed spec fn media_root_text(&self) -> Seq<char> {
        self.media_root@
    }

    pub closed spec fn threshold(&self) -> u64 {
        self.stop_threshold_bytes
    }

    pub fn media_root(&self) -> (p: &str)
        ensures
            p@ == self.media_root_text(),
    {
        self.media_root.as_str()
    }

    /// Writes stop when the available space is at or below the threshold.
    pub fn status(&self, capacity: &StorageCapacity) -> (s: StorageWriteStatus)
        ensures
            s == (if capacity.available_bytes <= self.threshold() { StorageWriteStatus::Stopped } else { StorageWriteStatus::Allowed }),
    {
        if capacity.available_bytes <= self.stop_threshold_bytes {
            StorageWriteStatus::Stopped
        } else {
            StorageWriteStatus::Allowed
        }
    }
}

/// Why a scheduler could not be configured or could not finish a pass.
#[derive(Clone, Debug, PartialEq, Eq)]
pub enum SchedulerError {
    Storage(DbError),
    NextRun(String),
    InvalidInterval,
}

/// When a periodic scan next runs, in nanoseconds since the Unix epoch.
#[derive(Clone, Copy, Debug, PartialEq, Eq, Structural)]
pub struct ScanSchedule {
    pub interval_nanos: i128,
    pub next_scan: Option<i128>,
}

impl ScanSchedule {
    /// A schedule with a positive interval whose first scan is due at once.
    pub fn with_interval(interval_nanos: i128) -> (r: Result<Self, SchedulerError>)
        ensures
            interval_nanos <= 0 ==> r == Err::<ScanSchedule, SchedulerError>(SchedulerError::InvalidInterval),
            interval_nanos > 0 ==> r == Ok::<ScanSchedule, SchedulerError>(ScanSchedule { interval_nanos, next_scan: None }),
    {
        if interval_nanos <= 0 {
            return Err(SchedulerError::InvalidInterval);
        }
        Ok(ScanSchedule { interval_nanos, next_scan: None })
    }

    /// A scan is due unless one is scheduled after `now`.
    pub fn is_due(&self, now: i128) -> (due: bool)
        ensures
            due == !(self.next_scan matches Some(t) && t > now),
    {
        match self.next_scan {
            Some(t) => t <= now,
            None => true,
        }
    }

    /// After a scan at `now`, the next one is one interval later.
    pub fn record_scan(&mut self, now: i128)
        requires
            now + old(self).interval_nanos <= i128::MAX,
            now + old(self).interval_nanos >= i128::MIN,
        ensures
            final(self).interval_nanos == old(self).interval_nanos,
            final(self).next_scan == Some((now + old(self).interval_nanos) as i128),
    {
        self.next_scan = Some(now + self.interval_nanos);
    }
}

/// The most purges one trash scan enqueues.
pub const TRASH_PURGE_DUE_LIMIT: u32 = 100;

/// What a trash scan at `now` asks of storage: nothing when a scan is
/// scheduled after `now` (the scheduler then reports 0 enqueued), else to
/// enqueue at most `TRASH_PURGE_DUE_LIMIT` due purges. The scan is
/// recorded with `record_scan` once the purges were enqueued.
pub fn trash_scan_limit(schedule: &ScanSchedule, now: i128) -> (limit: Option<u32>)
    ensures
        limit == (if (schedule.next_scan matches Some(t) && t > now) { None } else { Some(TRASH_PURGE_DUE_LIMIT) }),
{
    if schedule.is_due(now) {
        Some(TRASH_PURGE_DUE_LIMIT)
    } else {
        None
    }
}

/// With a positive interval, a scan recorded at `now` is not due again
/// before `now + interval`, and is due from then on.
pub proof fn lemma_scan_spacing(s: ScanSchedule, now: i128, later: i128)
    requires
        s.interval_nanos > 0,
        now + s.interval_nanos <= i128::MAX,
    ensures
        ({
            let after = ScanSchedule { interval_nanos: s.interval_nanos, next_scan: Some((now + s.interval_nanos) as i128) };
            &&& (later < now + s.interval_nanos ==> (after.next_scan matches Some(t) && t > later))
            &&& (later >= now + s.interval_nanos ==> !(after.next_scan matches Some(t) && t > later))
        }),
{
}

/// The run loop's bookkeeping: how many tasks run, the limit, and whether
/// shutdown began.
#[derive(Clone, Copy, Debug, PartialEq, Eq, Structural)]
pub struct RunLoopState {
    pub max_concurrency: usize,
    pub active: usize,
    pub shutting_down: bool,
}

/// Why the run loop cannot start.
#[derive(Clone, Copy, Debug, PartialEq, Eq, Structural)]
pub enum RunLoopError {
    InvalidConcurrency,
}

/// A run loop needs a positive concurrency.
pub fn start_run_loop(max_concurrency: usize) -> (r: Result<RunLoopState, RunLoopError>)
    ensures
        max_concurrency == 0 ==> r == Err::<RunLoopState, RunLoopError>(RunLoopError::InvalidConcurrency),
        max_concurrency > 0 ==> r == Ok::<RunLoopState, RunLoopError>(RunLoopState { max_concurrency, active: 0, shutting_down: false }),
{
    if max_concurrency == 0 {
        return Err(RunLoopError::InvalidConcurrency);
    }
    Ok(RunLoopState { max_concurrency, active: 0, shutting_down: false })
}

/// What woke the run loop.
#[derive(Clone, Copy, Debug, PartialEq, Eq, Structural)]
pub enum RunLoopEvent {
    /// The shutdown signal changed; `requested` is its new value.
    Shutdown { requested: bool },
    /// The poll interval elapsed; `accepting` is the worker's switch.
    PollTick { accepting: bool },
    /// A task finished, successfully or not.
    TaskJoined { ok: bool },
    /// The shutdown grace period is over.
    GraceElapsed,
}

/// What the run loop does next.
#[derive(Clone, Copy, Debug, PartialEq, Eq, Structural)]
pub enum RunLoopAction {
    /// Start a task that runs one scheduling tick and claims one job.
    SpawnTask,
    Wait,
    /// Turn claiming off and wait (within the grace period) for the
    /// running tasks.
    StopClaiming,
    /// A task failed or panicked: stop with its error.
    Fail,
    Finish,
}

pub open spec fn spec_run_loop_step(s: RunLoopState, event: RunLoopEvent) -> (RunLoopState, RunLoopAction) {
    match event {
        RunLoopEvent::Shutdown { requested } => if !s.shutting_down && requested {
            if s.active == 0 {
                (RunLoopState { shutting_down: true, ..s }, RunLoopAction::Finish)
            } else {
                (RunLoopState { shutting_down: true, ..s }, RunLoopAction::StopClaiming)
            }
        } else {
            (s, RunLoopAction::Wait)
        },
        RunLoopEvent::PollTick { accepting } => if !s.shutting_down && accepting && s.active < s.max_concurrency {
            (RunLoopState { active: (s.active + 1) as usize, ..s }, RunLoopAction::SpawnTask)
        } else {
            (s, RunLoopAction::Wait)
        },
        RunLoopEvent::TaskJoined { ok } => {
            let after = RunLoopState { active: if s.active > 0 { (s.active - 1) as usize } else { 0 }, ..s };
            if !ok {
                (after, RunLoopAction::Fail)
            } else if s.shutting_down && after.active == 0 {
                (after, RunLoopAction::Finish)
            } else {
                (after, RunLoopAction::Wait)
            }
        },
        RunLoopEvent::GraceElapsed => if s.shutting_down { (s, RunLoopAction::Finish) } else { (s, RunLoopAction::Wait) },
    }
}

/// One decision of the worker's run loop: a poll starts a task only while
/// the worker accepts work and fewer tasks than the limit run; a shutdown
/// turns claiming off and the loop then waits for its tasks until they are
/// done or the grace period ends; a failed task stops the loop.
pub fn run_loop_step(s: RunLoopState, event: RunLoopEvent) -> (next: (RunLoopState, RunLoopAction))
    ensures
        next == spec_run_loop_step(s, event),
{
    match event {
        RunLoopEvent::Shutdown { requested } => if !s.shutting_down && requested {
            if s.active == 0 {
                (RunLoopState { shutting_down: true, ..s }, RunLoopAction::Finish)
            } else {
                (RunLoopState { shutting_down: true, ..s }, RunLoopAction::StopClaiming)
            }
        } else {
            (s, RunLoopAction::Wait)
        },
        RunLoopEvent::PollTick { accepting } => if !s.shutting_down && accepting && s.active < s.max_concurrency {
            (RunLoopState { active: s.active + 1, ..s }, RunLoopAction::SpawnTask)
        } else {
            (s, RunLoopAction::Wait)
        },
        RunLoopEvent::TaskJoined { ok } => {
            let after = RunLoopState { active: if s.active > 0 { s.active - 1 } else { 0 }, ..s };
            if !ok {
                (after, RunLoopAction::Fail)
            } else if s.shutting_down && after.active == 0 {
                (after, RunLoopAction::Finish)
            } else {
                (after, RunLoopAction::Wait)
            }
        },
        RunLoopEvent::GraceElapsed => if s.shutting_down { (s, RunLoopAction::Finish) } else { (s, RunLoopAction::Wait) },
    }
}

/// The loop never runs more tasks than its limit, never starts a task once
/// shutdown began, and shutdown, once begun, is never undone.
pub proof fn lemma_run_loop_bounds(s: RunLoopState, event: RunLoopEvent)
    requires
        s.active <= s.max_concurrency,
    ensures
        spec_run_loop_step(s, event).0.active <= s.max_concurrency,
        spec_run_loop_step(s, event).0.max_concurrency == s.max_concurrency,
        s.shutting_down ==> spec_run_loop_step(s, event).1 != RunLoopAction::SpawnTask,
        s.shutting_down ==> spec_run_loop_step(s, event).0.shutting_down,
{
}


/// The claim rotation of the default queue quota weights, at its start.
pub fn default_rotation() -> (r: QueueQuotaRotation)
    ensures
        r.sequence() == spec_quota_sequence(
            QueueQuotaWeights { immediate: 4, manual_import: 8, scheduled_collection: 2, background_maintenance: 1 },
        ),
        r.cursor() == 0,
{
    QueueQuotaWeights::default().rotation()
}

/// Where a pass over the due subscriptions stands.
#[derive(Clone, Copy, Debug, PartialEq, Eq, Structural)]
pub enum DuePassPhase {
    /// The priority policy and the list of due subscriptions are being read.
    Listing,
    /// `left` due subscriptions are still to be scheduled; `scheduled` of
    /// those before them got a new run.
    Scheduling { left: usize, scheduled: usize },
    Finished,
}

impl DuePassPhase {
    /// While scheduling, at least one subscription is left and the count
    /// cannot outgrow the list it was read from.
    pub open spec fn wf(self) -> bool {
        match self {
            DuePassPhase::Scheduling { left, scheduled } => left > 0 && scheduled + left <= usize::MAX,
            _ => true,
        }
    }
}

/// What the step of a pass that was asked for reported.
#[derive(Clone, Debug, PartialEq, Eq)]
pub enum DuePassEvent {
    /// The due list was read; it holds this many subscriptions.
    Listed(usize),
    /// Reading the priority policy or the due list failed.
    ListFailed(DbError),
    /// The current subscription's schedule gave no next run, for this reason.
    NextRunFailed(String),
    /// The current subscription has a kind this worker does not know.
    UnknownKind(String),
    /// The current subscription's next run was stored; `stale` when another
    /// scheduler had changed the subscription first.
    Stored { stale: bool },
    /// Storing the current subscription's next run failed.
    StoreFailed(DbError),
}

/// What the scheduler does next.
#[derive(Debug, PartialEq, Eq)]
pub enum DuePassAction {
    /// Compute the next due subscription's next run and store it with the
    /// priority of its job kind.
    ScheduleNext,
    /// The pass is over: how many subscriptions were scheduled, or why it stopped.
    Finish(Result<usize, SchedulerError>),
}

pub open spec fn unknown_kind_message(kind: Seq<char>) -> Seq<char> {
    "unknown subscription kind "@ + kind
}

pub open spec fn out_of_order_message() -> Seq<char> {
    "the scheduling pass received an event out of order"@
}

/// The phase after an event.
pub open spec fn spec_due_pass_phase(phase: DuePassPhase, event: DuePassEvent) -> DuePassPhase {
    match (phase, event) {
        (DuePassPhase::Listing, DuePassEvent::Listed(n)) =>
            if n == 0 { DuePassPhase::Finished } else { DuePassPhase::Scheduling { left: n, scheduled: 0 } },
        (DuePassPhase::Scheduling { left, scheduled }, DuePassEvent::Stored { stale }) => {
            let counted = if stale { scheduled as int } else { scheduled + 1 };
            if left <= 1 { DuePassPhase::Finished } else { DuePassPhase::Scheduling { left: (left - 1) as usize, scheduled: counted as usize } }
        },
        _ => DuePassPhase::Finished,
    }
}

/// The action after an event.
pub open spec fn due_pass_action_is(phase: DuePassPhase, event: DuePassEvent, action: DuePassAction) -> bool {
    match (phase, event) {
        (DuePassPhase::Listing, DuePassEvent::Listed(n)) =>
            if n == 0 { action == DuePassAction::Finish(Ok(0)) } else { action == DuePassAction::ScheduleNext },
        (DuePassPhase::Listing, DuePassEvent::ListFailed(e)) =>
            action == DuePassAction::Finish(Err(SchedulerError::Storage(e))),
        (DuePassPhase::Scheduling { left, scheduled }, DuePassEvent::Stored { stale }) => {
            let counted = if stale { scheduled as int } else { scheduled + 1 };
            if left <= 1 { action == DuePassAction::Finish(Ok(counted as usize)) } else { action == DuePassAction::ScheduleNext }
        },
        (DuePassPhase::Scheduling { .. }, DuePassEvent::NextRunFailed(m)) =>
            action matches DuePassAction::Finish(Err(SchedulerError::NextRun(r))) && r@ == m@,
        (DuePassPhase::Scheduling { .. }, DuePassEvent::UnknownKind(k)) =>
            action matches DuePassAction::Finish(Err(SchedulerError::NextRun(r))) && r@ == unknown_kind_message(k@),
        (DuePassPhase::Scheduling { .. }, DuePassEvent::StoreFailed(e)) =>
            action == DuePassAction::Finish(Err(SchedulerError::Storage(e))),
        _ => action matches DuePassAction::Finish(Err(SchedulerError::Storage(DbError::InvalidValue(r))))
            && r@ == out_of_order_message(),
    }
}

/// One decision of the subscription scheduler's pass: the due subscriptions
/// are scheduled one by one, each counted unless another scheduler changed
/// it first; the pass stops at the first subscription whose next run cannot
/// be computed or stored, and ends with the count after the last one.
pub fn due_pass_step(phase: DuePassPhase, event: DuePassEvent) -> (next: (DuePassPhase, DuePassAction))
    requires
        phase.wf(),
    ensures
        next.0 == spec_due_pass_phase(phase, event),
        next.0.wf(),
        due_pass_action_is(phase, event, next.1),
{
    match (phase, event) {
        (DuePassPhase::Listing, DuePassEvent::Listed(n)) => if n == 0 {
            (DuePassPhase::Finished, DuePassAction::Finish(Ok(0)))
        } else {
            (DuePassPhase::Scheduling { left: n, scheduled: 0 }, DuePassAction::ScheduleNext)
        },
        (DuePassPhase::Listing, DuePassEvent::ListFailed(e)) =>
            (DuePassPhase::Finished, DuePassAction::Finish(Err(SchedulerError::Storage(e)))),
        (DuePassPhase::Scheduling { left, scheduled }, DuePassEvent::Stored { stale }) => {
            let counted: usize = if stale { scheduled } else { scheduled + 1 };
            if left <= 1 {
                (DuePassPhase::Finished, DuePassAction::Finish(Ok(counted)))
            } else {
                (DuePassPhase::Scheduling { left: left - 1, scheduled: counted }, DuePassAction::ScheduleNext)
            }
        },
        (DuePassPhase::Scheduling { .. }, DuePassEvent::NextRunFailed(m)) =>
            (DuePassPhase::Finished, DuePassAction::Finish(Err(SchedulerError::NextRun(m)))),
        (DuePassPhase::Scheduling { .. }, DuePassEvent::UnknownKind(k)) => {
            let message = String::from_str("unknown subscription kind ").concat(k.as_str());
            proof { reveal_strlit("unknown subscription kind "); }
            (DuePassPhase::Finished, DuePassAction::Finish(Err(SchedulerError::NextRun(message))))
        },
        (DuePassPhase::Scheduling { .. }, DuePassEvent::StoreFailed(e)) =>
            (DuePassPhase::Finished, DuePassAction::Finish(Err(SchedulerError::Storage(e)))),
        _ => {
            let message = String::from_str("the scheduling pass received an event out of order");
            (DuePassPhase::Finished, DuePassAction::Finish(Err(SchedulerError::Storage(DbError::InvalidValue(message)))))
        },
    }
}

/// Each stored subscription is counted exactly when it was not stale, one
/// subscription fewer is left after it, and a pass that reached its last
/// subscription answers with the number scheduled.
pub proof fn lemma_due_pass_counts(left: usize, scheduled: usize, stale: bool)
    requires
        left > 0,
        scheduled + left <= usize::MAX,
    ensures
        ({
            let phase = DuePassPhase::Scheduling { left, scheduled };
            let next = spec_due_pass_phase(phase, DuePassEvent::Stored { stale });
            let counted = if stale { scheduled as int } else { scheduled + 1 };
            &&& (left > 1 ==> next == DuePassPhase::Scheduling { left: (left - 1) as usize, scheduled: counted as usize })
            &&& (left == 1 ==> next == DuePassPhase::Finished)
            &&& forall|a: DuePassAction| #[trigger] due_pass_action_is(phase, DuePassEvent::Stored { stale }, a) ==>
                    (left == 1 <==> a == DuePassAction::Finish(Ok(counted as usize)))
        }),
{
}

/// A pass that stops on an error schedules nothing more: every error leaves
/// the pass finished.
pub proof fn lemma_due_pass_stops_on_error(phase: DuePassPhase, event: DuePassEvent)
    requires
        phase.wf(),
        (!(event is Listed) && !(event is Stored)),
    ensures
        spec_due_pass_phase(phase, event) == DuePassPhase::Finished,
        forall|a: DuePassAction| #[trigger] due_pass_action_is(phase, event, a) ==> a is Finish && a->0 is Err,
{
}


/// How many of these events stored a subscription that was not stale.
pub open spec fn fresh_count(events: Seq<DuePassEvent>) -> nat
    decreases events.len(),
{
    if events.len() == 0 {
        0
    } else {
        fresh_count(events.drop_last()) + if events.last() == (DuePassEvent::Stored { stale: false }) { 1nat } else { 0nat }
    }
}

/// The phase of a pass after these events, in order.
pub open spec fn due_pass_after(phase: DuePassPhase, events: Seq<DuePassEvent>) -> DuePassPhase
    decreases events.len(),
{
    if events.len() == 0 {
        phase
    } else {
        spec_due_pass_phase(due_pass_after(phase, events.drop_last()), events.last())
    }
}

/// Over a run of stores that leaves subscriptions to schedule, the count
/// grows by exactly the number of stores that were not stale.
pub proof fn lemma_due_pass_run(left: usize, scheduled: usize, events: Seq<DuePassEvent>)
    requires
        left > events.len(),
        scheduled + left <= usize::MAX,
        forall|i: int| 0 <= i < events.len() ==> #[trigger] events[i] is Stored,
    ensures
        fresh_count(events) <= events.len(),
        due_pass_after(DuePassPhase::Scheduling { left, scheduled }, events)
            == (DuePassPhase::Scheduling { left: (left - events.len()) as usize, scheduled: (scheduled + fresh_count(events)) as usize }),
    decreases events.len(),
{
    if events.len() > 0 {
        let prefix = events.drop_last();
        assert forall|i: int| 0 <= i < prefix.len() implies #[trigger] prefix[i] is Stored by {
            assert(prefix[i] == events[i]);
        }
        lemma_due_pass_run(left, scheduled, prefix);
        assert(events[events.len() - 1] is Stored);
    }
}


/// A pass over `n` due subscriptions that stored every one of them answers,
/// at its last store, with the number that were not stale.
pub proof fn lemma_due_pass_answers_fresh_count(n: usize, events: Seq<DuePassEvent>)
    requires
        n > 0,
        events.len() == n,
        forall|i: int| 0 <= i < events.len() ==> #[trigger] events[i] is Stored,
    ensures
        forall|a: DuePassAction| #[trigger] due_pass_action_is(
            due_pass_after(DuePassPhase::Scheduling { left: n, scheduled: 0 }, events.drop_last()),
            events.last(),
            a,
        ) ==> a == DuePassAction::Finish(Ok(fresh_count(events) as usize)),
{
    let prefix = events.drop_last();
    assert forall|i: int| 0 <= i < prefix.len() implies #[trigger] prefix[i] is Stored by {
        assert(prefix[i] == events[i]);
    }
    lemma_due_pass_run(n, 0, prefix);
    assert(events[events.len() - 1] is Stored);
}


/// The run loop's bookkeeping after these events, in order.
pub open spec fn run_loop_after(s: RunLoopState, events: Seq<RunLoopEvent>) -> RunLoopState
    decreases events.len(),
{
    if events.len() == 0 {
        s
    } else {
        spec_run_loop_step(run_loop_after(s, events.drop_last()), events.last()).0
    }
}

/// Over a whole run from a started loop: at no point do more tasks run
/// than the limit, no task is started once shutdown began, and shutdown,
/// once begun, stays begun.
pub proof fn lemma_run_loop_whole_run(max_concurrency: usize, events: Seq<RunLoopEvent>)
    requires
        max_concurrency > 0,
    ensures
        ({
            let start = RunLoopState { max_concurrency, active: 0, shutting_down: false };
            &&& forall|i: int| 0 <= i <= events.len() ==> #[trigger] run_loop_after(start, events.take(i)).active <= max_concurrency
            &&& forall|i: int| 0 <= i < events.len() && #[trigger] run_loop_after(start, events.take(i)).shutting_down
                ==> spec_run_loop_step(run_loop_after(start, events.take(i)), events[i]).1 != RunLoopAction::SpawnTask
                    && run_loop_after(start, events.take(i + 1)).shutting_down
        }),
{
    let start = RunLoopState { max_concurrency, active: 0, shutting_down: false };
    lemma_run_loop_prefix(start, events);
    assert forall|i: int| 0 <= i < events.len() && #[trigger] run_loop_after(start, events.take(i)).shutting_down
        implies spec_run_loop_step(run_loop_after(start, events.take(i)), events[i]).1 != RunLoopAction::SpawnTask
            && run_loop_after(start, events.take(i + 1)).shutting_down by {
        assert(events.take(i + 1).drop_last() =~= events.take(i));
        assert(events.take(i + 1).last() == events[i]);
        lemma_run_loop_bounds(run_loop_after(start, events.take(i)), events[i]);
    }
}

proof fn lemma_run_loop_prefix(start: RunLoopState, events: Seq<RunLoopEvent>)
    requires
        start.active <= start.max_concurrency,
    ensures
        forall|i: int| 0 <= i <= events.len() ==> #[trigger] run_loop_after(start, events.take(i)).active <= start.max_concurrency
            && run_loop_after(start, events.take(i)).max_concurrency == start.max_concurrency,
    decreases events.len(),
{
    if events.len() > 0 {
        let prefix = events.drop_last();
        lemma_run_loop_prefix(start, prefix);
        assert forall|i: int| 0 <= i <= events.len() implies #[trigger] run_loop_after(start, events.take(i)).active <= start.max_concurrency
            && run_loop_after(start, events.take(i)).max_concurrency == start.max_concurrency by {
            if i < events.len() {
                assert(events.take(i) =~= prefix.take(i));
            } else {
                assert(events.take(i) =~= events);
                assert(prefix.take(prefix.len() as int) =~= prefix);
                lemma_run_loop_bounds(run_loop_after(start, prefix), events.last());
            }
        }
    } else {
        assert(events.take(0) =~= events);
    }
}

} // verus!
