//! Retry policy, error classification and the weighted queue rotation.

use vstd::prelude::*;
use crate::domain::{DbError, JobErrorClass, JobPriority, JobQuotaSelection, PixivErrorClass};
use crate::settings::{EffectiveSettings, QueueQuotaWeights as SettingsQueueQuotaWeights, spec_retry_schedule_valid};

verus! {

/// The retry class of a storage failure.
pub open spec fn spec_database_error_class(error: DbError) -> JobErrorClass {
    match error {
        DbError::Connection(_) | DbError::Migration(_) | DbError::RevisionConflict
        | DbError::LeaseConflict | DbError::Query(_) => JobErrorClass::Server,
        DbError::RateLimited { .. } => JobErrorClass::RateLimit,
        DbError::Constraint(_) | DbError::NotFound | DbError::InvalidValue(_) => JobErrorClass::Permanent,
    }
}

pub fn database_error_class(error: &DbError) -> (class: JobErrorClass)
    ensures
        class == spec_database_error_class(*error),
{
    match error {
        DbError::Connection(_) | DbError::Migration(_) | DbError::RevisionConflict
        | DbError::LeaseConflict | DbError::Query(_) => JobErrorClass::Server,
        DbError::RateLimited { .. } => JobErrorClass::RateLimit,
        DbError::Constraint(_) | DbError::NotFound | DbError::InvalidValue(_) => JobErrorClass::Permanent,
    }
}

} // verus!

verus! {

/// The retry class of a failed Pixiv request.
pub open spec fn spec_pixiv_error_class(error: PixivErrorClass) -> JobErrorClass {
    match error {
        PixivErrorClass::Network => JobErrorClass::Network,
        PixivErrorClass::RateLimited => JobErrorClass::RateLimit,
        PixivErrorClass::CredentialInvalid => JobErrorClass::CredentialInvalid,
        PixivErrorClass::TemporaryPixivError | PixivErrorClass::InvalidJsonOrInterstitial => JobErrorClass::Server,
        _ => JobErrorClass::Permanent,
    }
}

pub fn pixiv_error_class(error: PixivErrorClass) -> (class: JobErrorClass)
    ensures
        class == spec_pixiv_error_class(error),
{
    match error {
        PixivErrorClass::Network => JobErrorClass::Network,
        PixivErrorClass::RateLimited => JobErrorClass::RateLimit,
        PixivErrorClass::CredentialInvalid => JobErrorClass::CredentialInvalid,
        PixivErrorClass::TemporaryPixivError | PixivErrorClass::InvalidJsonOrInterstitial => JobErrorClass::Server,
        _ => JobErrorClass::Permanent,
    }
}

/// What happens to a job after a failed attempt. Delays are whole seconds.
#[derive(Clone, Copy, Debug, PartialEq, Eq, Structural)]
pub enum RetryDecision {
    RetryAfter(i64),
    BlockAccount,
    DoNotRetry,
}

#[derive(Clone, Copy, Debug, PartialEq, Eq, Structural)]
pub enum RetryPolicyError {
    InvalidBackoff,
}

/// A backoff schedule is usable when it is non-empty and every delay is positive.
pub open spec fn valid_backoff(backoff: Seq<i64>) -> bool {
    &&& backoff.len() > 0
    &&& forall|i: int| 0 <= i < backoff.len() ==> #[trigger] backoff[i] > 0
}

/// Delays (in seconds) before the n-th retry of a transient failure.
#[derive(Debug)]
pub struct RetryPolicy {
    network_backoff: Vec<i64>,
}

impl Clone for RetryPolicy {
    fn clone(&self) -> (copy: Self)
        ensures
            copy.backoff() == self.backoff(),
    {
        proof {
            use_type_invariant(self);
        }
        let copied = self.network_backoff.clone();
        assert(copied@ == self.network_backoff@);
        RetryPolicy { network_backoff: copied }
    }
}

/// Index into the schedule for the given (1-based) attempt: the first
/// attempt uses the first delay, attempts beyond the end reuse the last one.
pub open spec fn backoff_index(attempt: u32, len: nat) -> int {
    let index: int = if attempt == 0 { 0 } else { attempt - 1 };
    if index < len - 1 { index } else { len - 1 }
}

/// The decision of the retry policy over the schedule `backoff`.
pub open spec fn spec_next_attempt(
    backoff: Seq<i64>,
    error_class: JobErrorClass,
    attempt: u32,
    retry_after: Option<i64>,
) -> RetryDecision {
    match error_class {
        JobErrorClass::CredentialInvalid => RetryDecision::BlockAccount,
        JobErrorClass::Permanent => RetryDecision::DoNotRetry,
        JobErrorClass::RateLimit => {
            if attempt > backoff.len() {
                RetryDecision::DoNotRetry
            } else {
                match retry_after {
                    Some(d) if d >= 0 => RetryDecision::RetryAfter(d),
                    _ => RetryDecision::RetryAfter(backoff[backoff_index(attempt, backoff.len())]),
                }
            }
        },
        JobErrorClass::Network | JobErrorClass::Server => {
            if attempt > backoff.len() {
                RetryDecision::DoNotRetry
            } else {
                RetryDecision::RetryAfter(backoff[backoff_index(attempt, backoff.len())])
            }
        },
    }
}

impl RetryPolicy {
    #[verifier::type_invariant]
    spec fn wf(self) -> bool {
        valid_backoff(self.network_backoff@)
    }

    /// The backoff schedule, in seconds.
    pub closed spec fn backoff(&self) -> Seq<i64> {
        self.network_backoff@
    }

    /// The default schedule: one minute, five minutes, twenty minutes, one hour.
    pub fn default() -> (policy: Self)
        ensures
            policy.backoff() == seq![60i64, 300, 1200, 3600],
            valid_backoff(policy.backoff()),
    {
        let policy = RetryPolicy { network_backoff: vec![60i64, 300, 1200, 3600] };
        assert(policy.network_backoff@ == seq![60i64, 300, 1200, 3600]);
        policy
    }

    pub fn new(network_backoff: Vec<i64>) -> (res: Result<Self, RetryPolicyError>)
        ensures
            valid_backoff(network_backoff@) <==> res is Ok,
            res matches Ok(policy) ==> policy.backoff() == network_backoff@ && valid_backoff(policy.backoff()),
            res matches Err(e) ==> e == RetryPolicyError::InvalidBackoff,
    {
        if network_backoff.len() == 0 {
            return Err(RetryPolicyError::InvalidBackoff);
        }
        let mut i: usize = 0;
        while i < network_backoff.len()
            invariant
                i <= network_backoff.len(),
                forall|j: int| 0 <= j < i ==> #[trigger] network_backoff@[j] > 0,
            decreases network_backoff.len() - i,
        {
            if network_backoff[i] <= 0 {
                return Err(RetryPolicyError::InvalidBackoff);
            }
            i = i + 1;
        }
        Ok(RetryPolicy { network_backoff })
    }

    /// The policy configured by the retry settings group.
    pub fn from_effective_settings(settings: &EffectiveSettings) -> (res: Result<Self, RetryPolicyError>)
        ensures
            res is Ok <==> valid_backoff(settings.retry.network_backoff_seconds@.map_values(|x: u32| x as i64)),
            res matches Ok(policy) ==> policy.backoff() == settings.retry.network_backoff_seconds@.map_values(|x: u32| x as i64),
            res matches Err(e) ==> e == RetryPolicyError::InvalidBackoff,
    {
        let seconds = &settings.retry.network_backoff_seconds;
        let mut converted: Vec<i64> = Vec::new();
        let mut i: usize = 0;
        while i < seconds.len()
            invariant
                i <= seconds@.len(),
                converted@ == seconds@.take(i as int).map_values(|x: u32| x as i64),
            decreases seconds.len() - i,
        {
            converted.push(seconds[i] as i64);
            i = i + 1;
            assert(converted@ =~= seconds@.take(i as int).map_values(|x: u32| x as i64));
        }
        assert(seconds@.take(seconds@.len() as int) =~= seconds@);
        Self::new(converted)
    }

    pub fn next_attempt(&self, error_class: JobErrorClass, attempt: u32, retry_after: Option<i64>) -> (decision: RetryDecision)
        ensures
            decision == spec_next_attempt(self.backoff(), error_class, attempt, retry_after),
            valid_backoff(self.backoff()),
    {
        proof {
            use_type_invariant(self);
        }
        match error_class {
            JobErrorClass::CredentialInvalid => RetryDecision::BlockAccount,
            JobErrorClass::Permanent => RetryDecision::DoNotRetry,
            JobErrorClass::RateLimit => {
                if attempt as usize > self.network_backoff.len() {
                    return RetryDecision::DoNotRetry;
                }
                match retry_after {
                    Some(d) if d >= 0 => RetryDecision::RetryAfter(d),
                    _ => RetryDecision::RetryAfter(self.backoff_for_attempt(attempt)),
                }
            },
            JobErrorClass::Network | JobErrorClass::Server => {
                if attempt as usize > self.network_backoff.len() {
                    return RetryDecision::DoNotRetry;
                }
                RetryDecision::RetryAfter(self.backoff_for_attempt(attempt))
            },
        }
    }

    fn backoff_for_attempt(&self, attempt: u32) -> (delay: i64)
        ensures
            delay == self.backoff()[backoff_index(attempt, self.backoff().len())],
    {
        proof {
            use_type_invariant(self);
        }
        let index: usize = if attempt == 0 { 0 } else { (attempt - 1) as usize };
        let last: usize = self.network_backoff.len() - 1;
        let chosen: usize = if index < last { index } else { last };
        self.network_backoff[chosen]
    }
}

/// A retrying decision always waits a positive delay unless Pixiv asked for
/// a specific non-negative one.
pub proof fn lemma_retry_delays_are_scheduled(
    b: Seq<i64>,
    error_class: JobErrorClass,
    attempt: u32,
    retry_after: Option<i64>,
)
    requires
        valid_backoff(b),
    ensures
        spec_next_attempt(b, error_class, attempt, retry_after) matches RetryDecision::RetryAfter(d)
            ==> (d > 0 || (retry_after == Some(d) && error_class == JobErrorClass::RateLimit && d >= 0)),
{
    let k = backoff_index(attempt, b.len());
    assert(0 <= k < b.len());
    assert(b[k] > 0);
}

/// Transient failures are retried while the attempt number stays within the
/// schedule and given up after that; credential failures always block the
/// account and permanent failures are never retried.
pub proof fn lemma_retry_budget(
    b: Seq<i64>,
    error_class: JobErrorClass,
    attempt: u32,
    retry_after: Option<i64>,
)
    requires
        valid_backoff(b),
    ensures
        (error_class == JobErrorClass::Network || error_class == JobErrorClass::Server || error_class == JobErrorClass::RateLimit)
            ==> (spec_next_attempt(b, error_class, attempt, retry_after) is RetryAfter
                <==> attempt <= b.len()),
        error_class == JobErrorClass::CredentialInvalid
            ==> spec_next_attempt(b, error_class, attempt, retry_after) == RetryDecision::BlockAccount,
        error_class == JobErrorClass::Permanent
            ==> spec_next_attempt(b, error_class, attempt, retry_after) == RetryDecision::DoNotRetry,
{
}

/// The delay of a retry comes from the schedule at the attempt's position:
/// the `n`-th attempt (the first for attempt 0) of a network, server or
/// rate-limit failure within the schedule waits the schedule's `n`-th
/// delay, unless Pixiv asked a rate-limited request to wait a non-negative
/// time, which is then the delay. A rate-limited failure without such a
/// request waits exactly as long as a network failure at the same attempt.
/// Past the end of the schedule, only a credential failure is acted on.
pub proof fn lemma_retry_delay_by_attempt(
    b: Seq<i64>,
    error_class: JobErrorClass,
    attempt: u32,
    retry_after: Option<i64>,
)
    requires
        valid_backoff(b),
    ensures
        ({
            let position: int = if attempt == 0 { 0 } else { attempt - 1 };
            (error_class == JobErrorClass::Network || error_class == JobErrorClass::Server
                || (error_class == JobErrorClass::RateLimit && !(retry_after matches Some(r) && r >= 0)))
                && attempt <= b.len()
                ==> spec_next_attempt(b, error_class, attempt, retry_after) == RetryDecision::RetryAfter(b[position])
        }),
        error_class == JobErrorClass::RateLimit && attempt <= b.len() && (retry_after matches Some(r) && r >= 0)
            ==> spec_next_attempt(b, error_class, attempt, retry_after) == RetryDecision::RetryAfter(retry_after->0),
        !(retry_after matches Some(r) && r >= 0) ==> spec_next_attempt(b, JobErrorClass::RateLimit, attempt, retry_after)
            == spec_next_attempt(b, JobErrorClass::Network, attempt, None),
        attempt > b.len() && error_class != JobErrorClass::CredentialInvalid
            ==> spec_next_attempt(b, error_class, attempt, retry_after) == RetryDecision::DoNotRetry,
{
}

/// A job that failed `f` times before, with `f` within the schedule, waits
/// the schedule's delay at position `f` after a network or server failure,
/// or after a rate limit without a usable delay from Pixiv.
pub proof fn lemma_failure_decision_by_count(
    b: Seq<i64>,
    error_class: JobErrorClass,
    retryable_failures: u64,
    retry_after: Option<i64>,
)
    requires
        valid_backoff(b),
        retryable_failures < b.len(),
        retryable_failures < u32::MAX,
        error_class == JobErrorClass::Network || error_class == JobErrorClass::Server
            || (error_class == JobErrorClass::RateLimit && !(retry_after matches Some(r) && r >= 0)),
    ensures
        spec_next_attempt(b, error_class, spec_failure_attempt(retryable_failures), retry_after)
            == RetryDecision::RetryAfter(b[retryable_failures as int]),
{
}

/// With a strictly increasing schedule, a later attempt never waits less
/// than an earlier one.
pub proof fn lemma_backoff_monotone(s: Seq<i64>, a: u32, b: u32)
    requires
        valid_backoff(s),
        a <= b,
        forall|i: int, j: int| 0 <= i < j < s.len() ==> s[i] < s[j],
    ensures
        s[backoff_index(a, s.len())] <= s[backoff_index(b, s.len())],
{
    let ia = backoff_index(a, s.len());
    let ib = backoff_index(b, s.len());
    assert(ia <= ib);
    if ia < ib {
        assert(s[ia] < s[ib]);
    }
}


#[derive(Clone, Copy, Debug, PartialEq, Eq, Structural)]
pub enum QueueQuotaError {
    ZeroWeight,
}

/// How many claims each priority class receives per rotation period.
#[derive(Clone, Copy, Debug, PartialEq, Eq, Structural)]
pub struct QueueQuotaWeights {
    pub immediate: u16,
    pub manual_import: u16,
    pub scheduled_collection: u16,
    pub background_maintenance: u16,
}

/// The rotation order of one period: manual imports first, then immediate
/// work, scheduled collection and background maintenance, each repeated
/// by its weight.
pub open spec fn spec_quota_sequence(w: QueueQuotaWeights) -> Seq<JobPriority> {
    Seq::new(w.manual_import as nat, |i: int| JobPriority::ManualImport)
        + Seq::new(w.immediate as nat, |i: int| JobPriority::Immediate)
        + Seq::new(w.scheduled_collection as nat, |i: int| JobPriority::ScheduledCollection)
        + Seq::new(w.background_maintenance as nat, |i: int| JobPriority::BackgroundMaintenance)
}

/// The weight that a priority class has.
pub open spec fn spec_weight_of(w: QueueQuotaWeights, p: JobPriority) -> nat {
    match p {
        JobPriority::Immediate => w.immediate as nat,
        JobPriority::ManualImport => w.manual_import as nat,
        JobPriority::ScheduledCollection => w.scheduled_collection as nat,
        JobPriority::BackgroundMaintenance => w.background_maintenance as nat,
    }
}

fn push_repeated(sequence: &mut Vec<JobPriority>, priority: JobPriority, count: u16)
    ensures
        final(sequence)@ == old(sequence)@ + Seq::new(count as nat, |i: int| priority),
{
    let ghost start = sequence@;
    let mut i: u16 = 0;
    while i < count
        invariant
            i <= count,
            sequence@ == start + Seq::new(i as nat, |k: int| priority),
        decreases count - i,
    {
        sequence.push(priority);
        i = i + 1;
        assert(sequence@ =~= start + Seq::new(i as nat, |k: int| priority));
    }
}

impl<'a> From<&'a SettingsQueueQuotaWeights> for QueueQuotaWeights {
    fn from(settings: &'a SettingsQueueQuotaWeights) -> (w: Self) {
        QueueQuotaWeights {
            immediate: settings.immediate,
            manual_import: settings.manual_import,
            scheduled_collection: settings.scheduled_collection,
            background_maintenance: settings.background_maintenance,
        }
    }
}

impl<'a> vstd::std_specs::convert::FromSpecImpl<&'a SettingsQueueQuotaWeights> for QueueQuotaWeights {
    open spec fn obeys_from_spec() -> bool {
        true
    }

    open spec fn from_spec(v: &'a SettingsQueueQuotaWeights) -> Self {
        QueueQuotaWeights {
            immediate: v.immediate,
            manual_import: v.manual_import,
            scheduled_collection: v.scheduled_collection,
            background_maintenance: v.background_maintenance,
        }
    }
}

impl QueueQuotaWeights {
    /// The default weights: immediate 4, manual import 8, scheduled collection 2,
    /// background maintenance 1.
    pub fn default() -> (w: Self)
        ensures
            w == (QueueQuotaWeights { immediate: 4, manual_import: 8, scheduled_collection: 2, background_maintenance: 1 }),
    {
        QueueQuotaWeights { immediate: 4, manual_import: 8, scheduled_collection: 2, background_maintenance: 1 }
    }

    pub fn new(immediate: u16, manual_import: u16, scheduled_collection: u16, background_maintenance: u16) -> (res: Result<Self, QueueQuotaError>)
        ensures
            (immediate == 0 || manual_import == 0 || scheduled_collection == 0 || background_maintenance == 0)
                <==> res == Err::<Self, QueueQuotaError>(QueueQuotaError::ZeroWeight),
            res is Ok ==> res == Ok::<Self, QueueQuotaError>(QueueQuotaWeights { immediate, manual_import, scheduled_collection, background_maintenance }),
    {
        if immediate == 0 || manual_import == 0 || scheduled_collection == 0 || background_maintenance == 0 {
            return Err(QueueQuotaError::ZeroWeight);
        }
        Ok(QueueQuotaWeights { immediate, manual_import, scheduled_collection, background_maintenance })
    }

    pub fn rotation(self) -> (r: QueueQuotaRotation)
        ensures
            r.sequence() == spec_quota_sequence(self),
            r.cursor() == 0,
    {
        QueueQuotaRotation { sequence: self.sequence(), cursor: 0 }
    }

    fn sequence(self) -> (sequence: Vec<JobPriority>)
        ensures
            sequence@ == spec_quota_sequence(self),
    {
        let mut sequence: Vec<JobPriority> = Vec::new();
        push_repeated(&mut sequence, JobPriority::ManualImport, self.manual_import);
        push_repeated(&mut sequence, JobPriority::Immediate, self.immediate);
        push_repeated(&mut sequence, JobPriority::ScheduledCollection, self.scheduled_collection);
        push_repeated(&mut sequence, JobPriority::BackgroundMaintenance, self.background_maintenance);
        sequence
    }
}

/// A cursor over the priority sequence of one rotation period.
#[derive(Debug)]
pub struct QueueQuotaRotation {
    sequence: Vec<JobPriority>,
    cursor: usize,
}

impl Clone for QueueQuotaRotation {
    fn clone(&self) -> (copy: Self)
        ensures
            copy.sequence() == self.sequence(),
            copy.cursor() == self.cursor(),
    {
        proof {
            use_type_invariant(self);
        }
        let sequence = self.sequence.clone();
        assert(sequence@ == self.sequence@);
        QueueQuotaRotation { sequence, cursor: self.cursor }
    }
}

impl QueueQuotaRotation {
    #[verifier::type_invariant]
    spec fn wf(self) -> bool {
        self.sequence@.len() > 0 ==> self.cursor < self.sequence@.len()
    }

    pub closed spec fn sequence(&self) -> Seq<JobPriority> {
        self.sequence@
    }

    pub closed spec fn cursor(&self) -> nat {
        self.cursor as nat
    }

    /// The next claim request of the rotation; the cursor wraps at the end
    /// of the period.
    pub fn next_selection(&mut self) -> (selection: JobQuotaSelection)
        requires
            old(self).sequence().len() > 0,
        ensures
            final(self).sequence() == old(self).sequence(),
            final(self).cursor() == (old(self).cursor() + 1) % old(self).sequence().len(),
            old(self).cursor() < old(self).sequence().len(),
            selection == (JobQuotaSelection { preferred: old(self).sequence()[old(self).cursor() as int], fallback: true }),
    {
        proof {
            use_type_invariant(&*self);
        }
        let priority = self.sequence[self.cursor];
        let len = self.sequence.len();
        let next: usize = if self.cursor >= len - 1 { 0 } else { self.cursor + 1 };
        proof {
            let c = self.cursor as int;
            if c + 1 == len {
                vstd::arithmetic::div_mod::lemma_mod_self_0(len as int);
            } else {
                vstd::arithmetic::div_mod::lemma_small_mod((c + 1) as nat, len as nat);
            }
        }
        self.cursor = next;
        JobQuotaSelection::with_fallback(priority)
    }
}

/// Within one period of the rotation every priority class is offered
/// exactly as many times as its weight.
pub proof fn lemma_quota_counts(w: QueueQuotaWeights, p: JobPriority)
    ensures
        spec_quota_sequence(w).to_multiset().count(p) == spec_weight_of(w, p),
        spec_quota_sequence(w).len() == w.immediate + w.manual_import + w.scheduled_collection + w.background_maintenance,
{
    broadcast use vstd::seq_lib::group_seq_properties, vstd::multiset::group_multiset_axioms;
    let a = Seq::new(w.manual_import as nat, |i: int| JobPriority::ManualImport);
    let b = Seq::new(w.immediate as nat, |i: int| JobPriority::Immediate);
    let c = Seq::new(w.scheduled_collection as nat, |i: int| JobPriority::ScheduledCollection);
    let d = Seq::new(w.background_maintenance as nat, |i: int| JobPriority::BackgroundMaintenance);
    lemma_constant_count(JobPriority::ManualImport, w.manual_import as nat, p);
    lemma_constant_count(JobPriority::Immediate, w.immediate as nat, p);
    lemma_constant_count(JobPriority::ScheduledCollection, w.scheduled_collection as nat, p);
    lemma_constant_count(JobPriority::BackgroundMaintenance, w.background_maintenance as nat, p);
    vstd::seq_lib::lemma_multiset_commutative(a, b);
    vstd::seq_lib::lemma_multiset_commutative(a + b, c);
    vstd::seq_lib::lemma_multiset_commutative(a + b + c, d);
}

proof fn lemma_constant_count(x: JobPriority, n: nat, p: JobPriority)
    ensures
        Seq::new(n, |i: int| x).to_multiset().count(p) == if p == x { n } else { 0 },
    decreases n,
{
    broadcast use vstd::seq_lib::group_seq_properties, vstd::multiset::group_multiset_axioms;
    if n > 0 {
        let s = Seq::new(n, |i: int| x);
        let t = Seq::new((n - 1) as nat, |i: int| x);
        assert(s =~= t.push(x));
        lemma_constant_count(x, (n - 1) as nat, p);
        t.to_multiset_ensures();
        s.to_multiset_ensures();
    } else {
        assert(Seq::new(n, |i: int| x) =~= Seq::<JobPriority>::empty());
    }
}

/// The cursor after stepping a rotation of length `len` `k` times from `c`.
pub open spec fn spec_advance(c: int, k: nat, len: int) -> int
    decreases k,
{
    if k == 0 { c } else { (spec_advance(c, (k - 1) as nat, len) + 1) % len }
}

/// Stepping the rotation `k` times from cursor `c` lands on `(c + k) % len`,
/// so after one full period the rotation is back where it started.
pub proof fn lemma_rotation_period(c: int, k: nat, len: int)
    requires
        len > 0,
        0 <= c < len,
    ensures
        spec_advance(c, k, len) == (c + k) % len,
        spec_advance(c, len as nat, len) == c,
{
    lemma_rotation_steps(c, k, len);
    lemma_rotation_steps(c, len as nat, len);
    vstd::arithmetic::div_mod::lemma_mod_add_multiples_vanish(c, len);
    vstd::arithmetic::div_mod::lemma_small_mod(c as nat, len as nat);
}

/// The selections of one period's worth of consecutive calls starting at
/// cursor `c`: the period's sequence rotated by `c`.
pub open spec fn period_window(w: QueueQuotaWeights, c: int) -> Seq<JobPriority> {
    let s = spec_quota_sequence(w);
    Seq::new(s.len(), |i: int| s[(c + i) % (s.len() as int)])
}

/// In any run of consecutive selections as long as one period, wherever
/// it starts, each priority is offered exactly as many times as its
/// weight; and the `k`-th selection from a cursor `c` is the period's
/// entry at `(c + k) % len`, so the selections repeat with the period.
pub proof fn lemma_rotation_window_counts(w: QueueQuotaWeights, c: int, p: JobPriority)
    requires
        spec_quota_sequence(w).len() > 0,
        0 <= c < spec_quota_sequence(w).len(),
    ensures
        period_window(w, c).to_multiset().count(p) == spec_weight_of(w, p),
        forall|k: nat| #[trigger] spec_advance(c, k, spec_quota_sequence(w).len() as int)
            == (c + k) % (spec_quota_sequence(w).len() as int),
{
    let s = spec_quota_sequence(w);
    let len = s.len() as int;
    let window = period_window(w, c);
    let tail = s.subrange(c, len);
    let head = s.subrange(0, c);
    assert forall|i: int| 0 <= i < len implies #[trigger] window[i] == (tail + head)[i] by {
        if c + i < len {
            vstd::arithmetic::div_mod::lemma_small_mod((c + i) as nat, len as nat);
        } else {
            vstd::arithmetic::div_mod::lemma_mod_sub_multiples_vanish(c + i, len);
            vstd::arithmetic::div_mod::lemma_small_mod((c + i - len) as nat, len as nat);
        }
    }
    assert(window =~= tail + head);
    assert(s =~= head + tail);
    vstd::seq_lib::lemma_multiset_commutative(tail, head);
    vstd::seq_lib::lemma_multiset_commutative(head, tail);
    lemma_quota_counts(w, p);
    assert forall|k: nat| #[trigger] spec_advance(c, k, len) == (c + k) % len by {
        lemma_rotation_period(c, k, len);
    }
}

/// The priority that the `k`-th selection (counted from one) of a fresh
/// rotation prefers: the rotation starts at cursor 0 and each call takes
/// the entry at the cursor and moves it one step on.
pub open spec fn kth_selection(w: QueueQuotaWeights, k: nat) -> JobPriority {
    let s = spec_quota_sequence(w);
    s[spec_advance(0, (k - 1) as nat, s.len() as int)]
}

/// Over any number of calls of a fresh rotation: the `k`-th selection is
/// the period's entry `(k - 1) % len` (manual imports first, then
/// immediate work, scheduled collection and background maintenance, each
/// repeated by its weight), it repeats one period later, and the `len`
/// selections from any `k` on offer each priority exactly its weight.
pub proof fn lemma_rotation_k_calls(w: QueueQuotaWeights, k: nat, p: JobPriority)
    requires
        spec_quota_sequence(w).len() > 0,
        k >= 1,
    ensures
        kth_selection(w, k) == spec_quota_sequence(w)[((k - 1) as int) % (spec_quota_sequence(w).len() as int)],
        kth_selection(w, k + spec_quota_sequence(w).len()) == kth_selection(w, k),
        Seq::new(spec_quota_sequence(w).len(), |i: int| kth_selection(w, (k + i) as nat)).to_multiset().count(p)
            == spec_weight_of(w, p),
{
    let s = spec_quota_sequence(w);
    let len = s.len() as int;
    lemma_rotation_period(0, (k - 1) as nat, len);
    lemma_rotation_period(0, (k - 1 + len) as nat, len);
    vstd::arithmetic::div_mod::lemma_mod_add_multiples_vanish((k - 1) as int, len);
    let c = ((k - 1) as int) % len;
    vstd::arithmetic::div_mod::lemma_mod_bound((k - 1) as int, len);
    lemma_rotation_window_counts(w, c, p);
    let window = Seq::new(s.len(), |i: int| kth_selection(w, (k + i) as nat));
    assert forall|i: int| 0 <= i < len implies #[trigger] window[i] == period_window(w, c)[i] by {
        lemma_rotation_period(0, (k + i - 1) as nat, len);
        vstd::arithmetic::div_mod::lemma_add_mod_noop((k - 1) as int, i, len);
        vstd::arithmetic::div_mod::lemma_small_mod(i as nat, len as nat);
        assert((k + i - 1) as int == (k - 1) as int + i);
    }
    assert(window =~= period_window(w, c));
}

proof fn lemma_rotation_steps(c: int, k: nat, len: int)
    requires
        len > 0,
        0 <= c < len,
    ensures
        spec_advance(c, k, len) == (c + k) % len,
    decreases k,
{
    if k == 0 {
        vstd::arithmetic::div_mod::lemma_small_mod(c as nat, len as nat);
    } else {
        lemma_rotation_steps(c, (k - 1) as nat, len);
        vstd::arithmetic::div_mod::lemma_add_mod_noop_right(1, c + k - 1, len);
        assert(1 + (c + k - 1) == c + k);
    }
}


/// Retry settings that pass validation always configure a retry policy,
/// and its delays grow with every further attempt.
pub proof fn lemma_valid_retry_settings_configure_policy(seconds: Seq<u32>, a: u32, b: u32)
    requires
        spec_retry_schedule_valid(seconds),
        a <= b,
    ensures
        valid_backoff(seconds.map_values(|x: u32| x as i64)),
        ({
            let s = seconds.map_values(|x: u32| x as i64);
            s[backoff_index(a, s.len())] <= s[backoff_index(b, s.len())]
        }),
{
    let s = seconds.map_values(|x: u32| x as i64);
    assert forall|i: int| 0 <= i < s.len() implies #[trigger] s[i] > 0 by {
        assert(seconds[i] != 0);
    }
    assert forall|i: int, j: int| 0 <= i < j < s.len() implies s[i] < s[j] by {
        crate::settings::lemma_retry_schedule_sorted(seconds, i, j);
    }
    lemma_backoff_monotone(s, a, b);
}

/// Counts of jobs by what they need.
#[derive(Clone, Copy, Debug, PartialEq, Eq, Structural)]
pub struct JobStatistics {
    pub total: u64,
    pub running: u64,
    pub waiting: u64,
    pub requires_attention: u64,
}

/// The attempt a failure counts as: one more than the job's earlier
/// retryable failures (saturating), taken as a 32-bit attempt number.
pub open spec fn spec_failure_attempt(retryable_failures: u64) -> u32 {
    (if retryable_failures == u64::MAX { u64::MAX as int } else { retryable_failures + 1 }) as u32
}

/// The retry decision for a job's failure, given how many retryable
/// failures it already had.
pub fn failure_decision(policy: &RetryPolicy, error_class: JobErrorClass, retryable_failures: u64, retry_after: Option<i64>) -> (decision: RetryDecision)
    ensures
        decision == spec_next_attempt(policy.backoff(), error_class, spec_failure_attempt(retryable_failures), retry_after),
{
    let attempt = retryable_failures.saturating_add(1) as u32;
    policy.next_attempt(error_class, attempt, retry_after)
}

/// How a failure is applied to the job store.
#[derive(Clone, Copy, Debug, PartialEq, Eq, Structural)]
pub enum FailureTransition {
    /// Fail the attempt as retryable, to run again after the delay.
    RetryAfter { delay_seconds: i64 },
    /// Block the job's account until a new credential.
    BlockAccount,
    /// Fail the job for good.
    Fail,
}

pub fn failure_transition(decision: RetryDecision) -> (t: FailureTransition)
    ensures
        t == (match decision {
            RetryDecision::RetryAfter(d) => FailureTransition::RetryAfter { delay_seconds: d },
            RetryDecision::BlockAccount => FailureTransition::BlockAccount,
            RetryDecision::DoNotRetry => FailureTransition::Fail,
        }),
{
    match decision {
        RetryDecision::RetryAfter(d) => FailureTransition::RetryAfter { delay_seconds: d },
        RetryDecision::BlockAccount => FailureTransition::BlockAccount,
        RetryDecision::DoNotRetry => FailureTransition::Fail,
    }
}

} // verus!
