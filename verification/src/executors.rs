//! What job executors report to the worker runtime, how their failures are
//! classified, and the limits of an execution gate.

use vstd::prelude::*;
use crate::domain::{DbError, JobErrorClass, PixivAccountState};
use crate::jobs::{database_error_class, spec_database_error_class};
use crate::pixiv_accounts::{PixivAccountContextError, PixivCookieCipherError};

verus! {

/// What an executor reports for a job. `C` is what a completed job hands
/// to the job store.
#[derive(Clone, Debug, PartialEq)]
pub enum ExecutorOutcome<C> {
    Completed(C),
    /// The executor already finished the job in storage.
    Finalized,
    WaitingStorage,
    Failed { error_class: JobErrorClass, retry_after_seconds: Option<i64>, message: Option<String> },
}

pub open spec fn default_failure_text(class: JobErrorClass) -> Seq<char> {
    match class {
        JobErrorClass::Network => "Pixiv 网络请求失败"@,
        JobErrorClass::Server => "服务暂时不可用或响应无法处理"@,
        JobErrorClass::RateLimit => "Pixiv 请求频率受限"@,
        JobErrorClass::CredentialInvalid => "Pixiv Cookie 已失效"@,
        JobErrorClass::Permanent => "任务参数或来源数据无法处理"@,
    }
}

/// The message shown for a failure of each class when the executor gave
/// none.
pub fn default_failure_message(class: JobErrorClass) -> (m: &'static str)
    ensures
        m@ == default_failure_text(class),
{
    match class {
        JobErrorClass::Network => "Pixiv 网络请求失败",
        JobErrorClass::Server => "服务暂时不可用或响应无法处理",
        JobErrorClass::RateLimit => "Pixiv 请求频率受限",
        JobErrorClass::CredentialInvalid => "Pixiv Cookie 已失效",
        JobErrorClass::Permanent => "任务参数或来源数据无法处理",
    }
}

impl<C> ExecutorOutcome<C> {
    /// A failure with the default message of its class.
    pub fn failed(error_class: JobErrorClass, retry_after_seconds: Option<i64>) -> (o: Self)
        ensures
            o matches ExecutorOutcome::Failed { error_class: c, retry_after_seconds: r, message: Some(m) }
                && c == error_class && r == retry_after_seconds && m@ == default_failure_text(error_class),
    {
        ExecutorOutcome::Failed {
            error_class,
            retry_after_seconds,
            message: Some(String::from_str(default_failure_message(error_class))),
        }
    }

    /// A failure with the executor's own message.
    pub fn failed_with_message(error_class: JobErrorClass, retry_after_seconds: Option<i64>, message: String) -> (o: Self)
        ensures
            o == (ExecutorOutcome::<C>::Failed { error_class, retry_after_seconds, message: Some(message) }),
    {
        ExecutorOutcome::Failed { error_class, retry_after_seconds, message: Some(message) }
    }
}

/// Why an execution gate cannot be built.
#[derive(Clone, Copy, Debug, PartialEq, Eq, Structural)]
pub enum ExecutionGateError {
    InvalidConcurrency,
    InvalidRate,
}

/// The limits of an execution gate: how many jobs run at once, and the
/// spacing of their starts when a rate is set.
#[derive(Clone, Copy, Debug, PartialEq, Eq, Structural)]
pub struct ExecutionGate {
    pub concurrency: usize,
    pub start_interval_nanos: Option<u128>,
}

pub open spec fn spec_execution_gate(concurrency: usize, rate: Option<(u32, u128)>) -> Result<ExecutionGate, ExecutionGateError> {
    if concurrency == 0 {
        Err(ExecutionGateError::InvalidConcurrency)
    } else {
        match rate {
            None => Ok(ExecutionGate { concurrency, start_interval_nanos: None }),
            Some((requests, window_nanos)) => if requests == 0 || window_nanos == 0 || window_nanos / (requests as u128) == 0 {
                Err(ExecutionGateError::InvalidRate)
            } else {
                Ok(ExecutionGate { concurrency, start_interval_nanos: Some(window_nanos / (requests as u128)) })
            },
        }
    }
}

impl ExecutionGate {
    /// A gate for `concurrency` jobs, optionally starting at most
    /// `requests` of them per window (given in nanoseconds), spaced evenly.
    /// The concurrency must be positive; a rate needs a positive count and
    /// a window long enough to space its starts by at least a nanosecond.
    pub fn new(concurrency: usize, rate: Option<(u32, u128)>) -> (r: Result<Self, ExecutionGateError>)
        ensures
            r == spec_execution_gate(concurrency, rate),
    {
        if concurrency == 0 {
            return Err(ExecutionGateError::InvalidConcurrency);
        }
        match rate {
            None => Ok(ExecutionGate { concurrency, start_interval_nanos: None }),
            Some((requests, window_nanos)) => {
                if requests == 0 || window_nanos == 0 {
                    return Err(ExecutionGateError::InvalidRate);
                }
                let interval = window_nanos / (requests as u128);
                if interval == 0 {
                    Err(ExecutionGateError::InvalidRate)
                } else {
                    Ok(ExecutionGate { concurrency, start_interval_nanos: Some(interval) })
                }
            },
        }
    }
}

/// A gate's starts, spaced by its interval, never exceed its rate within
/// a window: `requests` starts take at least `(requests - 1)` intervals,
/// and `requests` intervals fit in the window.
pub proof fn lemma_gate_interval_respects_rate(concurrency: usize, requests: u32, window_nanos: u128)
    requires
        spec_execution_gate(concurrency, Some((requests, window_nanos))) is Ok,
    ensures
        ({
            let gate = spec_execution_gate(concurrency, Some((requests, window_nanos)))->Ok_0;
            &&& gate.start_interval_nanos matches Some(i)
            &&& i > 0
            &&& i * requests <= window_nanos
        }),
{
    let i = window_nanos / (requests as u128);
    assert(i * requests <= window_nanos) by (nonlinear_arith)
        requires
            requests > 0,
            i == window_nanos / (requests as u128),
    ;
}

/// The start times a rated gate hands out, in nanoseconds of a monotonic
/// clock: `next_start` is the earliest time the next job may start.
#[derive(Clone, Copy, Debug, PartialEq, Eq, Structural)]
pub struct RatePacer {
    pub interval_nanos: u128,
    pub next_start: u128,
}

impl RatePacer {
    /// A pacer whose first job may start at `now`.
    pub fn new(interval_nanos: u128, now: u128) -> (p: Self)
        ensures
            p == (RatePacer { interval_nanos, next_start: now }),
    {
        RatePacer { interval_nanos, next_start: now }
    }

    /// A job asking at `now` starts at the later of `now` and the next free
    /// start, and the next free start moves one interval past it.
    pub fn schedule(&mut self, now: u128) -> (start: u128)
        requires
            (if old(self).next_start >= now { old(self).next_start } else { now }) + old(self).interval_nanos <= u128::MAX,
        ensures
            start == (if old(self).next_start >= now { old(self).next_start } else { now }),
            final(self).interval_nanos == old(self).interval_nanos,
            final(self).next_start == start + old(self).interval_nanos,
    {
        let start = if self.next_start >= now { self.next_start } else { now };
        self.next_start = start + self.interval_nanos;
        start
    }
}

/// Starts handed out one after another are at least one interval apart,
/// and none starts before it was asked for.
pub proof fn lemma_pacer_spacing(p: RatePacer, first: u128, second: u128)
    ensures
        ({
            let s1 = if p.next_start >= first { p.next_start as int } else { first as int };
            let n1 = s1 + p.interval_nanos;
            let s2 = if n1 >= second { n1 } else { second as int };
            &&& s1 >= first
            &&& s2 >= second
            &&& s2 >= s1 + p.interval_nanos
        }),
{
}

/// The starts that successive `schedule` calls hand out, asked at the
/// times `asks` in the order of the calls, from a pacer whose next free
/// start is `next_start`.
pub open spec fn pacer_starts(next_start: int, interval_nanos: u128, asks: Seq<u128>) -> Seq<int>
    decreases asks.len(),
{
    if asks.len() == 0 {
        Seq::empty()
    } else {
        let start = if next_start >= asks[0] { next_start } else { asks[0] as int };
        seq![start] + pacer_starts(start + interval_nanos, interval_nanos, asks.drop_first())
    }
}

proof fn lemma_pacer_starts_len(next_start: int, interval_nanos: u128, asks: Seq<u128>)
    ensures
        pacer_starts(next_start, interval_nanos, asks).len() == asks.len(),
    decreases asks.len(),
{
    if asks.len() > 0 {
        let start = if next_start >= asks[0] { next_start } else { asks[0] as int };
        lemma_pacer_starts_len(start + interval_nanos, interval_nanos, asks.drop_first());
    }
}

proof fn lemma_pacer_starts_step(next_start: int, interval_nanos: u128, asks: Seq<u128>, k: int)
    requires
        0 <= k < asks.len(),
    ensures
        pacer_starts(next_start, interval_nanos, asks)[k] >= asks[k],
        pacer_starts(next_start, interval_nanos, asks)[k] >= next_start,
        k + 1 < asks.len() ==> pacer_starts(next_start, interval_nanos, asks)[k + 1]
            >= pacer_starts(next_start, interval_nanos, asks)[k] + interval_nanos,
    decreases asks.len(),
{
    let start = if next_start >= asks[0] { next_start } else { asks[0] as int };
    let rest = asks.drop_first();
    lemma_pacer_starts_len(start + interval_nanos, interval_nanos, rest);
    if k == 0 {
        if asks.len() > 1 {
            lemma_pacer_starts_step(start + interval_nanos, interval_nanos, rest, 0);
        }
    } else {
        lemma_pacer_starts_step(start + interval_nanos, interval_nanos, rest, k - 1);
        assert(rest[k - 1] == asks[k]);
    }
}

/// Any two starts of one pacer, the `i`-th and the `j`-th of its calls in
/// the order they reached it, are at least `j - i` intervals apart, however
/// long each job waited before asking (for a concurrency permit, say); no
/// job starts before it asked, nor before the pacer's next free start.
pub proof fn lemma_pacer_any_two_starts(p: RatePacer, asks: Seq<u128>, i: int, j: int)
    requires
        0 <= i <= j < asks.len(),
    ensures
        pacer_starts(p.next_start as int, p.interval_nanos, asks).len() == asks.len(),
        pacer_starts(p.next_start as int, p.interval_nanos, asks)[j]
            >= pacer_starts(p.next_start as int, p.interval_nanos, asks)[i] + (j - i) * p.interval_nanos,
        pacer_starts(p.next_start as int, p.interval_nanos, asks)[i] >= asks[i],
        pacer_starts(p.next_start as int, p.interval_nanos, asks)[i] >= p.next_start,
    decreases j - i,
{
    let starts = pacer_starts(p.next_start as int, p.interval_nanos, asks);
    lemma_pacer_starts_len(p.next_start as int, p.interval_nanos, asks);
    lemma_pacer_starts_step(p.next_start as int, p.interval_nanos, asks, i);
    if i < j {
        lemma_pacer_any_two_starts(p, asks, i, j - 1);
        lemma_pacer_starts_step(p.next_start as int, p.interval_nanos, asks, j - 1);
        let iv = p.interval_nanos as int;
        assert((j - i) * iv == (j - 1 - i) * iv + iv) by (nonlinear_arith);
        assert(starts[j] >= starts[j - 1] + iv);
        assert(starts[j - 1] >= starts[i] + (j - 1 - i) * iv);
    } else {
        assert((j - i) * p.interval_nanos == 0) by (nonlinear_arith)
            requires
                i == j,
        ;
    }
}

/// The first call of `schedule` hands out the first of `pacer_starts`, and
/// leaves a pacer whose starts for the remaining asks are the rest.
pub proof fn lemma_pacer_starts_follow_schedule(p: RatePacer, asks: Seq<u128>)
    requires
        asks.len() > 0,
    ensures
        ({
            let start = if p.next_start >= asks[0] { p.next_start as int } else { asks[0] as int };
            &&& pacer_starts(p.next_start as int, p.interval_nanos, asks)[0] == start
            &&& pacer_starts(p.next_start as int, p.interval_nanos, asks).drop_first()
                == pacer_starts(start + p.interval_nanos, p.interval_nanos, asks.drop_first())
        }),
{
    let start = if p.next_start >= asks[0] { p.next_start as int } else { asks[0] as int };
    assert(pacer_starts(p.next_start as int, p.interval_nanos, asks).drop_first()
        =~= pacer_starts(start + p.interval_nanos, p.interval_nanos, asks.drop_first()));
}

/// The class of a failure to get a Pixiv request context: an account
/// whose credential is known invalid, or a stored cookie that no longer
/// decrypts, needs a new credential; other unavailable states and keyring
/// failures are server-side; storage failures are classified as such.
pub open spec fn spec_context_error_class(error: PixivAccountContextError) -> JobErrorClass {
    match error {
        PixivAccountContextError::AccountUnavailable { state } => if state == PixivAccountState::CredentialInvalid {
            JobErrorClass::CredentialInvalid
        } else {
            JobErrorClass::Server
        },
        PixivAccountContextError::Cipher(e) => if e == PixivCookieCipherError::InvalidCredential {
            JobErrorClass::CredentialInvalid
        } else {
            JobErrorClass::Server
        },
        PixivAccountContextError::Storage(db) => spec_database_error_class(db),
    }
}

pub fn context_error_class(error: &PixivAccountContextError) -> (class: JobErrorClass)
    ensures
        class == spec_context_error_class(*error),
{
    match error {
        PixivAccountContextError::AccountUnavailable { state } => match state {
            PixivAccountState::CredentialInvalid => JobErrorClass::CredentialInvalid,
            _ => JobErrorClass::Server,
        },
        PixivAccountContextError::Cipher(e) => match e {
            PixivCookieCipherError::InvalidCredential => JobErrorClass::CredentialInvalid,
            _ => JobErrorClass::Server,
        },
        PixivAccountContextError::Storage(db) => database_error_class(db),
    }
}

/// The class stored with a failed run, or permanent when the stored name
/// is not a class.
pub fn job_error_class(value: &str) -> (class: JobErrorClass)
    ensures
        crate::domain::job_error_class_name(class) == value@ || (class == JobErrorClass::Permanent
            && forall|c: JobErrorClass| crate::domain::job_error_class_name(c) != value@),
{
    match JobErrorClass::from_db_value(value) {
        Some(c) => c,
        None => JobErrorClass::Permanent,
    }
}

/// What an executor answers for a unit of work whose run already ended:
/// a stored failure is repeated with its stored class (permanent if the
/// stored name is unknown) and message.
pub fn stored_failure_outcome<C>(error_class: Option<&str>, message: Option<String>) -> (o: ExecutorOutcome<C>)
    ensures
        o matches ExecutorOutcome::Failed { error_class: c, retry_after_seconds: None, message: m } && (
            match error_class {
                Some(v) => crate::domain::job_error_class_name(c) == v@ || (c == JobErrorClass::Permanent
                    && forall|k: JobErrorClass| crate::domain::job_error_class_name(k) != v@),
                None => c == JobErrorClass::Permanent,
            }) && (match message {
                Some(text) => m == Some(text),
                None => m matches Some(t) && t@ == default_failure_text(c),
            }),
{
    let class = match error_class {
        Some(v) => job_error_class(v),
        None => JobErrorClass::Permanent,
    };
    match message {
        Some(text) => ExecutorOutcome::failed_with_message(class, None, text),
        None => ExecutorOutcome::failed(class, None),
    }
}

/// What a completed job hands to the job store: nothing more, a
/// subscription unit's completion `S`, or an import run's result.
#[derive(Clone, Debug, PartialEq, Eq)]
pub enum JobCompletion<S> {
    TaskOnly,
    Subscription(S),
    Import(crate::imports::ImportJobCompletion),
}

impl<S> ExecutorOutcome<JobCompletion<S>> {
    /// A job whose work is done and that hands nothing more to the store.
    pub fn completed() -> (o: Self)
        ensures
            o == ExecutorOutcome::<JobCompletion<S>>::Completed(JobCompletion::TaskOnly),
    {
        ExecutorOutcome::Completed(JobCompletion::TaskOnly)
    }
}

/// What an import job answers after its attempt: a failed run fails the
/// job with its class (permanent when none), retry delay and message (or
/// the class's default message); any other run completes the job with the
/// run's status and counts.
pub fn import_attempt_outcome<S>(
    status: crate::imports::ImportRunStatus,
    error_class: Option<JobErrorClass>,
    retry_after_seconds: Option<i64>,
    message: Option<String>,
    discovered_count: i32,
    saved_count: i32,
) -> (o: ExecutorOutcome<JobCompletion<S>>)
    ensures
        status == crate::imports::ImportRunStatus::Failed ==> (o matches ExecutorOutcome::Failed { error_class: c, retry_after_seconds: r, message: m }
            && c == (match error_class { Some(k) => k, None => JobErrorClass::Permanent })
            && r == retry_after_seconds
            && (match message {
                Some(t) => m == Some(t),
                None => m matches Some(d) && d@ == default_failure_text(c),
            })),
        status != crate::imports::ImportRunStatus::Failed ==> o == ExecutorOutcome::<JobCompletion<S>>::Completed(
            JobCompletion::Import(crate::imports::ImportJobCompletion { status, discovered_count, saved_count })),
{
    if status == crate::imports::ImportRunStatus::Failed {
        let class = match error_class {
            Some(k) => k,
            None => JobErrorClass::Permanent,
        };
        match message {
            Some(t) => ExecutorOutcome::failed_with_message(class, retry_after_seconds, t),
            None => ExecutorOutcome::failed(class, retry_after_seconds),
        }
    } else {
        ExecutorOutcome::Completed(JobCompletion::Import(crate::imports::ImportJobCompletion { status, discovered_count, saved_count }))
    }
}

/// What a subscription job answers after its unit's attempt: a unit that
/// reported a failure class fails the job with that class (permanent when
/// the name is unknown) and its message; otherwise the unit's completion
/// completes the job, and a missing completion is a server failure.
pub fn unit_attempt_outcome<S>(error_class: Option<&str>, message: Option<String>, completion: Option<S>) -> (r: Result<ExecutorOutcome<JobCompletion<S>>, JobErrorClass>)
    ensures
        error_class is Some ==> (r matches Ok(o) && o matches ExecutorOutcome::Failed { error_class: c, retry_after_seconds: None, message: m }
            && (error_class matches Some(v) && (crate::domain::job_error_class_name(c) == v@ || (c == JobErrorClass::Permanent
                && forall|k: JobErrorClass| crate::domain::job_error_class_name(k) != v@)))
            && (match message {
                Some(t) => m == Some(t),
                None => m matches Some(d) && d@ == default_failure_text(c),
            })),
        error_class is None ==> r == (match completion {
            Some(c) => Ok(ExecutorOutcome::<JobCompletion<S>>::Completed(JobCompletion::Subscription(c))),
            None => Err(JobErrorClass::Server),
        }),
{
    match error_class {
        Some(v) => {
            let class = job_error_class(v);
            match message {
                Some(t) => Ok(ExecutorOutcome::failed_with_message(class, None, t)),
                None => Ok(ExecutorOutcome::failed(class, None)),
            }
        },
        None => match completion {
            Some(c) => Ok(ExecutorOutcome::Completed(JobCompletion::Subscription(c))),
            None => Err(JobErrorClass::Server),
        },
    }
}

} // verus!
