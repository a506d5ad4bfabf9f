//! Administrator authentication: errors, configuration, session tokens,
//! login rate limits, password hash policy and the login procedure.

use vstd::prelude::*;
use crate::crypto::{spec_base64_url_decode, url_safe_base64_char, argon2_verifies, argon2id_hash, phc_fields, spec_argon2_verifies, spec_argon2id_hash, spec_phc_fields, base64_url_encode, bytes_equal_constant_time, spec_uuid_v7, uuid_v7_from_parts, os_random_bytes, sha256, spec_base64_url_encode, spec_sha256};
use crate::domain::DbError;
use crate::settings::SecuritySettings;

verus! {

#[derive(Clone, Copy, Debug, PartialEq, Eq, Structural)]
pub enum AuthError {
    InvalidCredentials,
    RateLimited { retry_after_seconds: u64 },
    InvalidSession,
    Forbidden,
    Internal,
}

impl AuthError {
    pub fn is_invalid_credentials(&self) -> (b: bool)
        ensures
            b == (*self == AuthError::InvalidCredentials),
    {
        match self {
            AuthError::InvalidCredentials => true,
            _ => false,
        }
    }

    pub fn is_rate_limited(&self) -> (b: bool)
        ensures
            b == (*self is RateLimited),
    {
        match self {
            AuthError::RateLimited { .. } => true,
            _ => false,
        }
    }

    /// Any failure of a collaborator surfaces as an internal error.
    pub fn internal<T>(_error: T) -> (e: Self)
        ensures
            e == AuthError::Internal,
    {
        AuthError::Internal
    }

    /// A failure of the random source surfaces as an internal error.
    pub fn rng<T>(_error: T) -> (e: Self)
        ensures
            e == AuthError::Internal,
    {
        AuthError::Internal
    }
}

/// How many password hash computations may run at once.
#[derive(Clone, Copy, Debug)]
pub struct AuthConfig {
    argon2_permits: usize,
}

impl AuthConfig {
    #[verifier::type_invariant]
    spec fn wf(self) -> bool {
        self.argon2_permits > 0
    }

    pub closed spec fn permits(&self) -> usize {
        self.argon2_permits
    }

    pub fn new(argon2_permits: usize) -> (res: Result<Self, AuthError>)
        ensures
            argon2_permits == 0 <==> res is Err,
            res matches Err(e) ==> e == AuthError::Internal,
            res matches Ok(c) ==> c.permits() == argon2_permits,
    {
        if argon2_permits == 0 {
            return Err(AuthError::Internal);
        }
        Ok(AuthConfig { argon2_permits })
    }

    pub fn new_for_tests() -> (res: Result<Self, AuthError>)
        ensures
            res matches Ok(c) && c.permits() == 8,
    {
        Self::new(8)
    }

    pub fn argon2_permits(&self) -> (n: usize)
        ensures
            n == self.permits(),
            n > 0,
    {
        proof {
            use_type_invariant(self);
        }
        self.argon2_permits
    }
}

/// A login attempt: the password and the bucket its source is counted in.
#[derive(Clone, Debug)]
pub struct LoginRequest {
    password: String,
    source_bucket: String,
}

impl LoginRequest {
    pub fn new(password: String, source_bucket: String) -> (r: Self)
        ensures
            r.password_text() == password@,
            r.source() == source_bucket@,
    {
        LoginRequest { password, source_bucket }
    }

    pub closed spec fn password_text(&self) -> Seq<char> {
        self.password@
    }

    pub closed spec fn source(&self) -> Seq<char> {
        self.source_bucket@
    }

    pub fn password(&self) -> (p: &str)
        ensures
            p@ == self.password_text(),
    {
        self.password.as_str()
    }

    pub fn source_bucket(&self) -> (b: &str)
        ensures
            b@ == self.source(),
    {
        self.source_bucket.as_str()
    }
}

/// What synchronizing the configured administrator password did.
#[derive(Clone, Copy, Debug, PartialEq, Eq, Structural)]
pub enum PasswordSync {
    Created,
    Unchanged,
    Updated,
}

/// The wall clock of the running system.
#[derive(Clone, Copy, Debug)]
pub struct SystemClock;

/// The result of checking a password against a stored hash: whether it
/// matched, and a new hash when the stored one uses outdated parameters.
#[derive(Clone, Debug)]
pub struct Verification {
    pub matched: bool,
    pub replacement_phc: Option<String>,
}

/// Argon2 cost parameters.
#[derive(Clone, Copy, Debug, PartialEq, Eq, Structural)]
pub struct Argon2Params {
    pub m_cost: u32,
    pub t_cost: u32,
    pub p_cost: u32,
    pub output_len: Option<usize>,
    /// Lengths of the key identifier and associated data parameters.
    pub keyid_len: usize,
    pub data_len: usize,
}

/// The parameters new hashes use: Argon2id v0x13, 19 MiB, two passes, one
/// lane, 32-byte output, no key identifier or associated data.
pub fn argon2() -> (p: Argon2Params)
    ensures
        p == (Argon2Params { m_cost: 19456, t_cost: 2, p_cost: 1, output_len: Some(32), keyid_len: 0, data_len: 0 }),
{
    Argon2Params { m_cost: 19456, t_cost: 2, p_cost: 1, output_len: Some(32), keyid_len: 0, data_len: 0 }
}

/// A stored hash is recomputed when its parameters cannot be read or
/// differ from the current ones.
pub fn needs_rehash(stored: Option<Argon2Params>) -> (b: bool)
    ensures
        b == match stored {
            None => true,
            Some(p) => p != (Argon2Params { m_cost: 19456, t_cost: 2, p_cost: 1, output_len: Some(32), keyid_len: 0, data_len: 0 }),
        },
{
    match stored {
        None => true,
        Some(p) => {
            let current = argon2();
            !(p.m_cost == current.m_cost && p.t_cost == current.t_cost && p.p_cost == current.p_cost
                && p.output_len == current.output_len && p.keyid_len == current.keyid_len && p.data_len == current.data_len)
        },
    }
}

/// What the parser found in a stored password hash.
#[derive(Clone, Debug)]
pub struct PhcSummary {
    pub algorithm_is_argon2id: bool,
    pub version_is_0x13: bool,
    pub params: Option<Argon2Params>,
}

/// Checks a stored hash before verifying a password against it: it must
/// parse and use Argon2id version 0x13; otherwise the credentials are invalid.
pub fn check_stored_hash(summary: Option<PhcSummary>) -> (res: Result<PhcSummary, AuthError>)
    ensures
        match summary {
            Some(s) => if s.algorithm_is_argon2id && s.version_is_0x13 {
                res == Ok::<PhcSummary, AuthError>(s)
            } else {
                res == Err::<PhcSummary, AuthError>(AuthError::InvalidCredentials)
            },
            None => res == Err::<PhcSummary, AuthError>(AuthError::InvalidCredentials),
        },
{
    match summary {
        Some(s) => if s.algorithm_is_argon2id && s.version_is_0x13 {
            Ok(s)
        } else {
            Err(AuthError::InvalidCredentials)
        },
        None => Err(AuthError::InvalidCredentials),
    }
}

/// Whether a verified password also needs a new hash.
pub fn should_replace_hash(matched: bool, stored: Option<Argon2Params>) -> (b: bool)
    ensures
        b == (matched && match stored {
            None => true,
            Some(p) => p != (Argon2Params { m_cost: 19456, t_cost: 2, p_cost: 1, output_len: Some(32), keyid_len: 0, data_len: 0 }),
        }),
{
    matched && needs_rehash(stored)
}

/// `n` bytes from the operating system's random source.
pub fn random_bytes(n: usize) -> (res: Result<Vec<u8>, AuthError>)
    ensures
        res matches Ok(b) ==> b@.len() == n,
        res matches Err(e) ==> e == AuthError::Internal,
{
    match os_random_bytes(n) {
        Some(b) => Ok(b),
        None => Err(AuthError::rng(())),
    }
}

/// A token is the unpadded URL-safe base64 text of its bytes.
pub fn token_from_bytes(bytes: &[u8]) -> (token: String)
    requires
        bytes@.len() <= usize::MAX / 2,
    ensures
        token@ == spec_base64_url_encode(bytes@),
        token@.len() == (4 * bytes@.len() + 2) / 3,
        forall|i: int| 0 <= i < token@.len() ==> url_safe_base64_char(#[trigger] token@[i]),
        spec_base64_url_decode(token@) == Some(bytes@),
{
    base64_url_encode(bytes)
}

/// A new session or CSRF token: 32 random bytes in unpadded URL-safe
/// base64, that is 43 characters of the URL-safe alphabet that decode back
/// to those 32 bytes. Only a failing random source makes it fail.
pub fn new_token() -> (res: Result<String, AuthError>)
    ensures
        res matches Ok(t) ==> exists|b: Seq<u8>| b.len() == 32 && t@ == #[trigger] spec_base64_url_encode(b)
            && spec_base64_url_decode(t@) == Some(b),
        res matches Ok(t) ==> t@.len() == 43 && forall|i: int| 0 <= i < t@.len() ==> url_safe_base64_char(#[trigger] t@[i]),
        res matches Err(e) ==> e == AuthError::Internal,
{
    let bytes = random_bytes(32)?;
    let token = token_from_bytes(bytes.as_slice());
    assert(token@ == spec_base64_url_encode(bytes@));
    Ok(token)
}

/// Tokens are stored only as their SHA-256 digest.
pub fn digest(token: &str) -> (d: Vec<u8>)
    ensures
        d@ == spec_sha256(vstd::utf8::encode_utf8(token@)),
        d@.len() == 32,
{
    sha256(token.as_bytes())
}

/// The CSRF cookie and header must carry the same token; they are
/// compared in constant time.
pub fn csrf_tokens_match(cookie_token: &str, header_token: &str) -> (same: bool)
    ensures
        same == (vstd::utf8::encode_utf8(cookie_token@) == vstd::utf8::encode_utf8(header_token@)),
{
    bytes_equal_constant_time(cookie_token.as_bytes(), header_token.as_bytes())
}

/// The outcome of the CSRF check once the stored digest was looked up.
pub fn csrf_decision(tokens_match: bool, digest_valid: Option<bool>) -> (res: Result<(), AuthError>)
    ensures
        res is Ok <==> (tokens_match && digest_valid == Some(true)),
        !tokens_match ==> res == Err::<(), AuthError>(AuthError::Forbidden),
        tokens_match && digest_valid is None ==> res == Err::<(), AuthError>(AuthError::Internal),
        tokens_match && digest_valid == Some(false) ==> res == Err::<(), AuthError>(AuthError::Forbidden),
{
    if !tokens_match {
        return Err(AuthError::Forbidden);
    }
    match digest_valid {
        None => Err(AuthError::Internal),
        Some(true) => Ok(()),
        Some(false) => Err(AuthError::Forbidden),
    }
}

/// A session lookup that found nothing means the session is invalid.
pub fn map_session_error(error: DbError) -> (e: AuthError)
    ensures
        e == (if error == DbError::NotFound { AuthError::InvalidSession } else { AuthError::Internal }),
{
    match error {
        DbError::NotFound => AuthError::InvalidSession,
        _ => AuthError::Internal,
    }
}

/// A changed or missing administrator while writing credentials means the
/// credentials used are no longer valid.
pub fn map_credential_state_error(error: DbError) -> (e: AuthError)
    ensures
        e == (if error == DbError::NotFound || error == DbError::RevisionConflict {
            AuthError::InvalidCredentials
        } else {
            AuthError::Internal
        }),
{
    match error {
        DbError::NotFound | DbError::RevisionConflict => AuthError::InvalidCredentials,
        _ => AuthError::Internal,
    }
}

/// The counters a login is limited by.
#[derive(Clone, Copy, Debug, PartialEq, Eq, Structural)]
pub enum RateLimitKind {
    Entry,
    Password,
    Shared,
}

/// A reservation against one login counter. Durations are in seconds.
#[derive(Clone, Debug)]
pub struct RateLimitReservation {
    pub id: u128,
    pub kind: RateLimitKind,
    pub bucket_key: String,
    pub threshold: i32,
    pub window: i64,
    pub cooldown: i64,
    pub lease: i64,
}

/// A time-ordered identifier made at `now_unix_millis` from ten fresh
/// random bytes; only a failing random source makes it fail.
pub open spec fn is_time_ordered_id(id: u128, now_unix_millis: u64) -> bool {
    &&& exists|random: Seq<u8>| random.len() == 10 && id == #[trigger] spec_uuid_v7(now_unix_millis, random)
    &&& id >> 80u128 == now_unix_millis % 0x1_0000_0000_0000
}

/// A version 7 id holds its time, cut to 48 bits, in its top 48 bits.
pub proof fn lemma_uuid_v7_time(unix_millis: u64, random: Seq<u8>)
    requires
        random.len() == 10,
    ensures
        spec_uuid_v7(unix_millis, random) >> 80u128 == unix_millis % 0x1_0000_0000_0000,
{
    let r = random;
    let low: int = 7 * 0x1000_0000_0000_0000_0000
        + ((r[0] % 16) * 0x100 + r[1]) * 0x1_0000_0000_0000_0000
        + 2 * 0x4000_0000_0000_0000
        + (r[2] % 64) * 0x100_0000_0000_0000
        + r[3] * 0x1_0000_0000_0000 + r[4] * 0x100_0000_0000 + r[5] * 0x1_0000_0000
        + r[6] * 0x100_0000 + r[7] * 0x1_0000 + r[8] * 0x100 + r[9];
    assert(0 <= low < 0x1_0000_0000_0000_0000_0000);
    let t: int = (unix_millis % 0x1_0000_0000_0000) as int;
    let id: u128 = spec_uuid_v7(unix_millis, random);
    assert(id as int == t * 0x1_0000_0000_0000_0000_0000 + low);
    assert(id as int / 0x1_0000_0000_0000_0000_0000 == t);
    assert(id >> 80u128 == id / 0x1_0000_0000_0000_0000_0000u128) by (bit_vector);
}

fn time_ordered_id(now_unix_millis: u64) -> (res: Result<u128, AuthError>)
    ensures
        res matches Ok(id) ==> is_time_ordered_id(id, now_unix_millis),
        res matches Err(e) ==> e == AuthError::Internal,
{
    let b = random_bytes(10)?;
    let random: [u8; 10] = [b[0], b[1], b[2], b[3], b[4], b[5], b[6], b[7], b[8], b[9]];
    assert(random@ =~= b@);
    let id = uuid_v7_from_parts(now_unix_millis, &random);
    assert(spec_uuid_v7(now_unix_millis, random@) == id);
    proof {
        lemma_uuid_v7_time(now_unix_millis, random@);
    }
    Ok(id)
}

fn reservation(kind: RateLimitKind, key: String, threshold: i32, window: i64, cooldown: i64, now_unix_millis: u64) -> (res: Result<RateLimitReservation, AuthError>)
    ensures
        res matches Ok(r) ==> {
            &&& r.kind == kind
            &&& r.bucket_key@ == key@
            &&& r.threshold == threshold
            &&& r.window == window
            &&& r.cooldown == cooldown
            &&& r.lease == 300
            &&& is_time_ordered_id(r.id, now_unix_millis)
        },
        res matches Err(e) ==> e == AuthError::Internal,
{
    let id = time_ordered_id(now_unix_millis)?;
    Ok(RateLimitReservation { id, kind, bucket_key: key, threshold, window, cooldown, lease: 300 })
}

/// The durations of a failure limit are representable.
pub open spec fn spec_limit_durations_fit(settings: SecuritySettings) -> bool {
    &&& settings.entry_source_failures.window_seconds <= i64::MAX
    &&& settings.entry_source_failures.cooldown_seconds <= i64::MAX
    &&& settings.password_failures.window_seconds <= i64::MAX
    &&& settings.password_failures.cooldown_seconds <= i64::MAX
    &&& settings.shared_account_failures.window_seconds <= i64::MAX
    &&& settings.shared_account_failures.cooldown_seconds <= i64::MAX
}

/// The three counters a login reserves: its source's entry counter, the
/// administrator's password counter and the shared account counter, each
/// with its configured limit, a five-minute lease, and a time-ordered id
/// made at `now_unix_millis`. Only a failing random source makes it fail.
pub fn login_reservations(source_bucket: &str, settings: &SecuritySettings, now_unix_millis: u64) -> (res: Result<Vec<RateLimitReservation>, AuthError>)
    requires
        spec_limit_durations_fit(*settings),
    ensures
        res matches Err(e) ==> e == AuthError::Internal,
        res matches Ok(rs) ==> rs@.len() == 3,
        res matches Ok(rs) ==> forall|i: int| 0 <= i < 3 ==> is_time_ordered_id(#[trigger] rs@[i].id, now_unix_millis),
        res matches Ok(rs) ==> rs@[0].kind == RateLimitKind::Entry && rs@[0].bucket_key@ == "entry:"@ + source_bucket@
            && rs@[0].threshold == settings.entry_source_failures.threshold
            && rs@[0].window == settings.entry_source_failures.window_seconds
            && rs@[0].cooldown == settings.entry_source_failures.cooldown_seconds,
        res matches Ok(rs) ==> rs@[1].kind == RateLimitKind::Password && rs@[1].bucket_key@ == "password:admin"@
            && rs@[1].threshold == settings.password_failures.threshold
            && rs@[1].window == settings.password_failures.window_seconds
            && rs@[1].cooldown == settings.password_failures.cooldown_seconds,
        res matches Ok(rs) ==> rs@[2].kind == RateLimitKind::Shared && rs@[2].bucket_key@ == "shared:admin"@
            && rs@[2].threshold == settings.shared_account_failures.threshold
            && rs@[2].window == settings.shared_account_failures.window_seconds
            && rs@[2].cooldown == settings.shared_account_failures.cooldown_seconds,
        res matches Ok(rs) ==> forall|i: int| 0 <= i < 3 ==> #[trigger] rs@[i].lease == 300,
{
    let entry_key = String::from_str("entry:").concat(source_bucket);
    let mut rs: Vec<RateLimitReservation> = Vec::new();
    rs.push(reservation(
        RateLimitKind::Entry,
        entry_key,
        settings.entry_source_failures.threshold as i32,
        settings.entry_source_failures.window(),
        settings.entry_source_failures.cooldown(),
        now_unix_millis,
    )?);
    rs.push(reservation(
        RateLimitKind::Password,
        String::from_str("password:admin"),
        settings.password_failures.threshold as i32,
        settings.password_failures.window(),
        settings.password_failures.cooldown(),
        now_unix_millis,
    )?);
    rs.push(reservation(
        RateLimitKind::Shared,
        String::from_str("shared:admin"),
        settings.shared_account_failures.threshold as i32,
        settings.shared_account_failures.window(),
        settings.shared_account_failures.cooldown(),
        now_unix_millis,
    )?);
    Ok(rs)
}

/// The counters a wrong password is charged to.
pub fn password_failure_kinds() -> (kinds: [RateLimitKind; 3])
    ensures
        kinds@ == seq![RateLimitKind::Password, RateLimitKind::Shared, RateLimitKind::Entry],
{
    let kinds = [RateLimitKind::Password, RateLimitKind::Shared, RateLimitKind::Entry];
    assert(kinds@ =~= seq![RateLimitKind::Password, RateLimitKind::Shared, RateLimitKind::Entry]);
    kinds
}

/// The audit record of one login attempt.
#[derive(Clone, Debug)]
pub struct LoginAttempt {
    pub administrator_id: Option<u128>,
    pub account_bucket: String,
    pub entry_bucket: String,
    pub source_bucket: String,
    pub succeeded: bool,
    pub failure_reason: Option<String>,
}

pub fn login_attempt(
    administrator_id: Option<u128>,
    request: &LoginRequest,
    succeeded: bool,
    failure_reason: Option<&str>,
) -> (a: LoginAttempt)
    ensures
        a.administrator_id == administrator_id,
        a.account_bucket@ == "admin"@,
        a.entry_bucket@ == request.source(),
        a.source_bucket@ == request.source(),
        a.succeeded == succeeded,
        match failure_reason {
            Some(r) => a.failure_reason matches Some(f) && f@ == r@,
            None => a.failure_reason is None,
        },
{
    LoginAttempt {
        administrator_id,
        account_bucket: String::from_str("admin"),
        entry_bucket: request.source_bucket.clone(),
        source_bucket: request.source_bucket.clone(),
        succeeded,
        failure_reason: match failure_reason {
            Some(r) => Some(String::from_str(r)),
            None => None,
        },
    }
}


/// Where a login stands between the calls it makes to storage and to the
/// password hasher.
#[derive(Clone, Copy, Debug, PartialEq, Eq, Structural)]
pub enum LoginPhase {
    /// The rate limit counters are being reserved.
    Reserving,
    /// The reservation was refused; the attempt is being recorded.
    RecordingRateLimit { retry_after_seconds: u64 },
    /// The password is being checked against the stored hash.
    Verifying,
    /// A wrong password is being charged to the counters.
    RecordingFailure,
    /// The session is being issued and the reservation committed.
    Finalizing,
    /// The reservation is being given back before failing with `outcome`;
    /// when `quiet`, a failure to give it back does not change the outcome.
    Releasing { outcome: AuthError, quiet: bool },
    Finished,
}

/// What the last call reported.
#[derive(Clone, Debug, PartialEq, Eq)]
pub enum LoginEvent {
    Reserved,
    ReservationRateLimited { retry_after_seconds: u64 },
    ReservationFailed,
    AttemptRecorded,
    AttemptRecordFailed,
    PasswordMatched,
    PasswordMismatched,
    PasswordCheckFailed(AuthError),
    FailureRecorded,
    FailureRecordFailed,
    Finalized,
    FinalizeFailed(DbError),
    Released,
    ReleaseFailed,
}

/// Why a login attempt failed, as its audit record names it.
#[derive(Clone, Copy, Debug, PartialEq, Eq, Structural)]
pub enum LoginFailureReason {
    RateLimited,
    InvalidPassword,
}

pub open spec fn login_failure_reason_text(reason: LoginFailureReason) -> Seq<char> {
    match reason {
        LoginFailureReason::RateLimited => "rate_limited"@,
        LoginFailureReason::InvalidPassword => "invalid_password"@,
    }
}

impl LoginFailureReason {
    /// The reason as stored with the attempt.
    pub fn as_str(self) -> (text: &'static str)
        ensures
            text@ == login_failure_reason_text(self),
    {
        match self {
            LoginFailureReason::RateLimited => "rate_limited",
            LoginFailureReason::InvalidPassword => "invalid_password",
        }
    }
}

/// The next call to make, or the login's result.
#[derive(Clone, Copy, Debug, PartialEq, Eq)]
pub enum LoginAction {
    /// Record `login_attempt(None, request, false, Some(reason.as_str()))`.
    RecordRateLimitedAttempt { reason: LoginFailureReason },
    VerifyPassword,
    /// Charge the reservation to the counters of `kinds` and record
    /// `login_attempt(Some(administrator id), request, false, Some(reason.as_str()))`.
    RecordPasswordFailure { kinds: [RateLimitKind; 3], reason: LoginFailureReason },
    /// Issue the session, commit the reservation and record
    /// `login_attempt(Some(administrator id), request, true, None)`.
    FinalizeLogin,
    ReleaseLease,
    Complete(Result<(), AuthError>),
}

/// Phases in which the login holds a reservation it must either commit,
/// charge or give back.
pub open spec fn holds_lease(phase: LoginPhase) -> bool {
    phase == LoginPhase::Verifying || phase == LoginPhase::RecordingFailure || phase == LoginPhase::Finalizing
        || phase is Releasing
}

pub open spec fn spec_login_step(phase: LoginPhase, event: LoginEvent) -> (LoginPhase, LoginAction) {
    match (phase, event) {
        (LoginPhase::Reserving, LoginEvent::Reserved) => (LoginPhase::Verifying, LoginAction::VerifyPassword),
        (LoginPhase::Reserving, LoginEvent::ReservationRateLimited { retry_after_seconds }) =>
            (
                LoginPhase::RecordingRateLimit { retry_after_seconds },
                LoginAction::RecordRateLimitedAttempt { reason: LoginFailureReason::RateLimited },
            ),
        (LoginPhase::RecordingRateLimit { retry_after_seconds }, LoginEvent::AttemptRecorded) =>
            (LoginPhase::Finished, LoginAction::Complete(Err(AuthError::RateLimited { retry_after_seconds }))),
        (LoginPhase::Verifying, LoginEvent::PasswordMatched) => (LoginPhase::Finalizing, LoginAction::FinalizeLogin),
        (LoginPhase::Verifying, LoginEvent::PasswordMismatched) => (
            LoginPhase::RecordingFailure,
            LoginAction::RecordPasswordFailure {
                kinds: [RateLimitKind::Password, RateLimitKind::Shared, RateLimitKind::Entry],
                reason: LoginFailureReason::InvalidPassword,
            },
        ),
        (LoginPhase::Verifying, LoginEvent::PasswordCheckFailed(e)) =>
            (LoginPhase::Releasing { outcome: e, quiet: false }, LoginAction::ReleaseLease),
        (LoginPhase::RecordingFailure, LoginEvent::FailureRecorded) =>
            (LoginPhase::Finished, LoginAction::Complete(Err(AuthError::InvalidCredentials))),
        (LoginPhase::RecordingFailure, LoginEvent::FailureRecordFailed) =>
            (LoginPhase::Releasing { outcome: AuthError::Internal, quiet: true }, LoginAction::ReleaseLease),
        (LoginPhase::Finalizing, LoginEvent::Finalized) => (LoginPhase::Finished, LoginAction::Complete(Ok(()))),
        (LoginPhase::Finalizing, LoginEvent::FinalizeFailed(db)) => (
            LoginPhase::Releasing {
                outcome: if db == DbError::NotFound || db == DbError::RevisionConflict { AuthError::InvalidCredentials } else { AuthError::Internal },
                quiet: false,
            },
            LoginAction::ReleaseLease,
        ),
        (LoginPhase::Releasing { outcome, quiet }, LoginEvent::Released) => (LoginPhase::Finished, LoginAction::Complete(Err(outcome))),
        (LoginPhase::Releasing { outcome, quiet }, LoginEvent::ReleaseFailed) =>
            (LoginPhase::Finished, LoginAction::Complete(Err(if quiet { outcome } else { AuthError::Internal }))),
        _ => (LoginPhase::Finished, LoginAction::Complete(Err(AuthError::Internal))),
    }
}

/// One decision of the login procedure: after reserving the rate limit
/// counters, a refused reservation is recorded and answered with its retry
/// delay; a matching password issues the session; a wrong one is charged to
/// the counters; every other failure gives the reservation back first.
pub fn login_step(phase: LoginPhase, event: LoginEvent) -> (next: (LoginPhase, LoginAction))
    ensures
        next == spec_login_step(phase, event),
{
    match (phase, event) {
        (LoginPhase::Reserving, LoginEvent::Reserved) => (LoginPhase::Verifying, LoginAction::VerifyPassword),
        (LoginPhase::Reserving, LoginEvent::ReservationRateLimited { retry_after_seconds }) =>
            (
                LoginPhase::RecordingRateLimit { retry_after_seconds },
                LoginAction::RecordRateLimitedAttempt { reason: LoginFailureReason::RateLimited },
            ),
        (LoginPhase::RecordingRateLimit { retry_after_seconds }, LoginEvent::AttemptRecorded) =>
            (LoginPhase::Finished, LoginAction::Complete(Err(AuthError::RateLimited { retry_after_seconds }))),
        (LoginPhase::Verifying, LoginEvent::PasswordMatched) => (LoginPhase::Finalizing, LoginAction::FinalizeLogin),
        (LoginPhase::Verifying, LoginEvent::PasswordMismatched) => (
            LoginPhase::RecordingFailure,
            LoginAction::RecordPasswordFailure {
                kinds: [RateLimitKind::Password, RateLimitKind::Shared, RateLimitKind::Entry],
                reason: LoginFailureReason::InvalidPassword,
            },
        ),
        (LoginPhase::Verifying, LoginEvent::PasswordCheckFailed(e)) =>
            (LoginPhase::Releasing { outcome: e, quiet: false }, LoginAction::ReleaseLease),
        (LoginPhase::RecordingFailure, LoginEvent::FailureRecorded) =>
            (LoginPhase::Finished, LoginAction::Complete(Err(AuthError::InvalidCredentials))),
        (LoginPhase::RecordingFailure, LoginEvent::FailureRecordFailed) =>
            (LoginPhase::Releasing { outcome: AuthError::Internal, quiet: true }, LoginAction::ReleaseLease),
        (LoginPhase::Finalizing, LoginEvent::Finalized) => (LoginPhase::Finished, LoginAction::Complete(Ok(()))),
        (LoginPhase::Finalizing, LoginEvent::FinalizeFailed(db)) => (
            LoginPhase::Releasing { outcome: map_credential_state_error(db), quiet: false },
            LoginAction::ReleaseLease,
        ),
        (LoginPhase::Releasing { outcome, quiet: _ }, LoginEvent::Released) => (LoginPhase::Finished, LoginAction::Complete(Err(outcome))),
        (LoginPhase::Releasing { outcome, quiet }, LoginEvent::ReleaseFailed) =>
            (LoginPhase::Finished, LoginAction::Complete(Err(if quiet { outcome } else { AuthError::Internal }))),
        _ => (LoginPhase::Finished, LoginAction::Complete(Err(AuthError::Internal))),
    }
}

/// The events that the call made in a phase can report.
pub open spec fn login_event_expected(phase: LoginPhase, event: LoginEvent) -> bool {
    match phase {
        LoginPhase::Reserving => event == LoginEvent::Reserved || event is ReservationRateLimited
            || event == LoginEvent::ReservationFailed,
        LoginPhase::RecordingRateLimit { .. } => event == LoginEvent::AttemptRecorded
            || event == LoginEvent::AttemptRecordFailed,
        LoginPhase::Verifying => event == LoginEvent::PasswordMatched || event == LoginEvent::PasswordMismatched
            || event is PasswordCheckFailed,
        LoginPhase::RecordingFailure => event == LoginEvent::FailureRecorded || event == LoginEvent::FailureRecordFailed,
        LoginPhase::Finalizing => event == LoginEvent::Finalized || event is FinalizeFailed,
        LoginPhase::Releasing { .. } => event == LoginEvent::Released || event == LoginEvent::ReleaseFailed,
        LoginPhase::Finished => false,
    }
}

/// A login that reserved the counters never finishes without settling the
/// reservation: from a phase that holds it, on any event its call can
/// report, the next phase still holds it, or the login completes right
/// after the session was issued, the failure was charged, or the
/// reservation was given back (or giving it back failed). The reservation
/// is only ever taken by a successful reserve, and only an issued session
/// completes the login successfully.
pub proof fn lemma_login_keeps_the_lease_accounted(phase: LoginPhase, event: LoginEvent)
    ensures
        holds_lease(phase) && login_event_expected(phase, event) ==> ({
            let (next, action) = spec_login_step(phase, event);
            holds_lease(next) || (action is Complete && (event == LoginEvent::Finalized
                || event == LoginEvent::FailureRecorded || phase is Releasing))
        }),
        !holds_lease(phase) && holds_lease(spec_login_step(phase, event).0)
            ==> phase == LoginPhase::Reserving && event == LoginEvent::Reserved,
        spec_login_step(phase, event).1 == LoginAction::Complete(Ok(()))
            ==> phase == LoginPhase::Finalizing && event == LoginEvent::Finalized,
{
}

/// The password check decides the login: a matching password goes on to
/// issue the session, and once it is issued the login succeeds; a wrong
/// password is charged as an invalid password to the password, shared and
/// entry counters, and once charged the login answers invalid credentials.
/// A session is issued, and a failure charged, on no other event.
pub proof fn lemma_password_decides_login(phase: LoginPhase, event: LoginEvent)
    ensures
        spec_login_step(LoginPhase::Verifying, LoginEvent::PasswordMatched)
            == (LoginPhase::Finalizing, LoginAction::FinalizeLogin),
        spec_login_step(spec_login_step(LoginPhase::Verifying, LoginEvent::PasswordMatched).0, LoginEvent::Finalized).1
            == LoginAction::Complete(Ok(())),
        spec_login_step(LoginPhase::Verifying, LoginEvent::PasswordMismatched) == (
            LoginPhase::RecordingFailure,
            LoginAction::RecordPasswordFailure {
                kinds: [RateLimitKind::Password, RateLimitKind::Shared, RateLimitKind::Entry],
                reason: LoginFailureReason::InvalidPassword,
            },
        ),
        spec_login_step(spec_login_step(LoginPhase::Verifying, LoginEvent::PasswordMismatched).0, LoginEvent::FailureRecorded).1
            == LoginAction::Complete(Err(AuthError::InvalidCredentials)),
        spec_login_step(phase, event).1 is RecordPasswordFailure
            ==> phase == LoginPhase::Verifying && event == LoginEvent::PasswordMismatched,
        spec_login_step(phase, event).1 == LoginAction::FinalizeLogin
            ==> phase == LoginPhase::Verifying && event == LoginEvent::PasswordMatched,
        spec_login_step(phase, event).0 == LoginPhase::RecordingFailure
            ==> phase == LoginPhase::Verifying && event == LoginEvent::PasswordMismatched,
        spec_login_step(phase, event).0 == LoginPhase::Finalizing
            ==> phase == LoginPhase::Verifying && event == LoginEvent::PasswordMatched,
{
}

/// Failures after the reservation give it back before answering: a failed
/// password check answers its own error once the reservation is given
/// back; a failed charge answers an internal failure whether or not giving
/// back works; a failed session issue answers invalid credentials when the
/// administrator or its credential changed meanwhile (not found, revision
/// conflict) and an internal failure otherwise; and a failure to give the
/// reservation back turns any of them but the failed charge into an
/// internal failure. Failures before a reservation is held answer an
/// internal failure at once.
pub proof fn lemma_login_failures_give_back(error: AuthError, db: DbError, retry_after_seconds: u64)
    ensures
        spec_login_step(LoginPhase::Reserving, LoginEvent::ReservationFailed).1 == LoginAction::Complete(Err(AuthError::Internal)),
        spec_login_step(LoginPhase::RecordingRateLimit { retry_after_seconds }, LoginEvent::AttemptRecordFailed).1
            == LoginAction::Complete(Err(AuthError::Internal)),
        spec_login_step(LoginPhase::Verifying, LoginEvent::PasswordCheckFailed(error)).1 == LoginAction::ReleaseLease,
        spec_login_step(spec_login_step(LoginPhase::Verifying, LoginEvent::PasswordCheckFailed(error)).0, LoginEvent::Released).1
            == LoginAction::Complete(Err(error)),
        spec_login_step(spec_login_step(LoginPhase::Verifying, LoginEvent::PasswordCheckFailed(error)).0, LoginEvent::ReleaseFailed).1
            == LoginAction::Complete(Err(AuthError::Internal)),
        spec_login_step(LoginPhase::RecordingFailure, LoginEvent::FailureRecordFailed).1 == LoginAction::ReleaseLease,
        spec_login_step(spec_login_step(LoginPhase::RecordingFailure, LoginEvent::FailureRecordFailed).0, LoginEvent::Released).1
            == LoginAction::Complete(Err(AuthError::Internal)),
        spec_login_step(spec_login_step(LoginPhase::RecordingFailure, LoginEvent::FailureRecordFailed).0, LoginEvent::ReleaseFailed).1
            == LoginAction::Complete(Err(AuthError::Internal)),
        spec_login_step(LoginPhase::Finalizing, LoginEvent::FinalizeFailed(db)).1 == LoginAction::ReleaseLease,
        spec_login_step(spec_login_step(LoginPhase::Finalizing, LoginEvent::FinalizeFailed(db)).0, LoginEvent::Released).1
            == LoginAction::Complete(Err(if db == DbError::NotFound || db == DbError::RevisionConflict {
                AuthError::InvalidCredentials
            } else {
                AuthError::Internal
            })),
        spec_login_step(spec_login_step(LoginPhase::Finalizing, LoginEvent::FinalizeFailed(db)).0, LoginEvent::ReleaseFailed).1
            == LoginAction::Complete(Err(AuthError::Internal)),
{
}

/// A refused reservation is recorded as a `rate_limited` attempt and, once
/// recorded, answers with the retry delay the store gave, without the
/// password being checked; a wrong password is charged to the password,
/// shared and entry counters (the kinds of `password_failure_kinds`) and
/// recorded as `invalid_password`, and once charged answers invalid
/// credentials. Neither issues a session.
pub proof fn lemma_login_answers(retry_after_seconds: u64)
    ensures
        spec_login_step(LoginPhase::RecordingRateLimit { retry_after_seconds }, LoginEvent::AttemptRecorded).1
            == LoginAction::Complete(Err(AuthError::RateLimited { retry_after_seconds })),
        spec_login_step(LoginPhase::Reserving, LoginEvent::ReservationRateLimited { retry_after_seconds }).1
            == (LoginAction::RecordRateLimitedAttempt { reason: LoginFailureReason::RateLimited }),
        login_failure_reason_text(LoginFailureReason::RateLimited) == "rate_limited"@,
        spec_login_step(LoginPhase::Verifying, LoginEvent::PasswordMismatched).1 matches
            LoginAction::RecordPasswordFailure { kinds, reason }
            && kinds@ == seq![RateLimitKind::Password, RateLimitKind::Shared, RateLimitKind::Entry]
            && reason == LoginFailureReason::InvalidPassword,
        login_failure_reason_text(LoginFailureReason::InvalidPassword) == "invalid_password"@,
        spec_login_step(LoginPhase::RecordingFailure, LoginEvent::FailureRecorded).1
            == LoginAction::Complete(Err(AuthError::InvalidCredentials)),
        spec_login_step(LoginPhase::RecordingRateLimit { retry_after_seconds }, LoginEvent::AttemptRecorded).0
            == LoginPhase::Finished,
        spec_login_step(LoginPhase::RecordingFailure, LoginEvent::FailureRecorded).0 == LoginPhase::Finished,
{
    let kinds = [RateLimitKind::Password, RateLimitKind::Shared, RateLimitKind::Entry];
    assert(kinds@ =~= seq![RateLimitKind::Password, RateLimitKind::Shared, RateLimitKind::Entry]);
}

/// Where synchronizing the configured administrator password stands.
#[derive(Clone, Copy, Debug, PartialEq, Eq, Structural)]
pub enum PasswordSyncPhase {
    LookingUp,
    Verifying,
    Hashing { create: bool },
    Storing { create: bool },
    Finished,
}

#[derive(Clone, Debug, PartialEq, Eq)]
pub enum PasswordSyncEvent {
    AdministratorMissing,
    AdministratorFound,
    LookupFailed,
    Verified { matched: bool },
    VerifyFailed(AuthError),
    Hashed,
    HashFailed(AuthError),
    Stored,
    StoreFailed(DbError),
}

#[derive(Clone, Copy, Debug, PartialEq, Eq)]
pub enum PasswordSyncAction {
    VerifyConfiguredPassword,
    HashPassword,
    CreateAdministrator,
    UpdatePasswordAndRevokeSessions,
    Complete(Result<PasswordSync, AuthError>),
}

pub open spec fn spec_password_sync_step(phase: PasswordSyncPhase, event: PasswordSyncEvent) -> (PasswordSyncPhase, PasswordSyncAction) {
    match (phase, event) {
        (PasswordSyncPhase::LookingUp, PasswordSyncEvent::AdministratorMissing) =>
            (PasswordSyncPhase::Hashing { create: true }, PasswordSyncAction::HashPassword),
        (PasswordSyncPhase::LookingUp, PasswordSyncEvent::AdministratorFound) =>
            (PasswordSyncPhase::Verifying, PasswordSyncAction::VerifyConfiguredPassword),
        (PasswordSyncPhase::Verifying, PasswordSyncEvent::Verified { matched }) => if matched {
            (PasswordSyncPhase::Finished, PasswordSyncAction::Complete(Ok(PasswordSync::Unchanged)))
        } else {
            (PasswordSyncPhase::Hashing { create: false }, PasswordSyncAction::HashPassword)
        },
        (PasswordSyncPhase::Verifying, PasswordSyncEvent::VerifyFailed(e)) => if e == AuthError::InvalidCredentials {
            (PasswordSyncPhase::Hashing { create: false }, PasswordSyncAction::HashPassword)
        } else {
            (PasswordSyncPhase::Finished, PasswordSyncAction::Complete(Err(e)))
        },
        (PasswordSyncPhase::Hashing { create }, PasswordSyncEvent::Hashed) => (
            PasswordSyncPhase::Storing { create },
            if create { PasswordSyncAction::CreateAdministrator } else { PasswordSyncAction::UpdatePasswordAndRevokeSessions },
        ),
        (PasswordSyncPhase::Hashing { create }, PasswordSyncEvent::HashFailed(e)) =>
            (PasswordSyncPhase::Finished, PasswordSyncAction::Complete(Err(e))),
        (PasswordSyncPhase::Storing { create }, PasswordSyncEvent::Stored) => (
            PasswordSyncPhase::Finished,
            PasswordSyncAction::Complete(Ok(if create { PasswordSync::Created } else { PasswordSync::Updated })),
        ),
        (PasswordSyncPhase::Storing { create }, PasswordSyncEvent::StoreFailed(db)) => (
            PasswordSyncPhase::Finished,
            PasswordSyncAction::Complete(Err(if create {
                AuthError::Internal
            } else if db == DbError::NotFound || db == DbError::RevisionConflict {
                AuthError::InvalidCredentials
            } else {
                AuthError::Internal
            })),
        ),
        _ => (PasswordSyncPhase::Finished, PasswordSyncAction::Complete(Err(AuthError::Internal))),
    }
}

/// One decision of the password synchronization: a missing administrator
/// is created; an existing one keeps its hash when the configured password
/// still matches (a hash that cannot be read counts as not matching),
/// otherwise it gets a new hash and its sessions are revoked.
pub fn password_sync_step(phase: PasswordSyncPhase, event: PasswordSyncEvent) -> (next: (PasswordSyncPhase, PasswordSyncAction))
    ensures
        next == spec_password_sync_step(phase, event),
{
    match (phase, event) {
        (PasswordSyncPhase::LookingUp, PasswordSyncEvent::AdministratorMissing) =>
            (PasswordSyncPhase::Hashing { create: true }, PasswordSyncAction::HashPassword),
        (PasswordSyncPhase::LookingUp, PasswordSyncEvent::AdministratorFound) =>
            (PasswordSyncPhase::Verifying, PasswordSyncAction::VerifyConfiguredPassword),
        (PasswordSyncPhase::Verifying, PasswordSyncEvent::Verified { matched }) => if matched {
            (PasswordSyncPhase::Finished, PasswordSyncAction::Complete(Ok(PasswordSync::Unchanged)))
        } else {
            (PasswordSyncPhase::Hashing { create: false }, PasswordSyncAction::HashPassword)
        },
        (PasswordSyncPhase::Verifying, PasswordSyncEvent::VerifyFailed(e)) => if e == AuthError::InvalidCredentials {
            (PasswordSyncPhase::Hashing { create: false }, PasswordSyncAction::HashPassword)
        } else {
            (PasswordSyncPhase::Finished, PasswordSyncAction::Complete(Err(e)))
        },
        (PasswordSyncPhase::Hashing { create }, PasswordSyncEvent::Hashed) => (
            PasswordSyncPhase::Storing { create },
            if create { PasswordSyncAction::CreateAdministrator } else { PasswordSyncAction::UpdatePasswordAndRevokeSessions },
        ),
        (PasswordSyncPhase::Hashing { create: _ }, PasswordSyncEvent::HashFailed(e)) =>
            (PasswordSyncPhase::Finished, PasswordSyncAction::Complete(Err(e))),
        (PasswordSyncPhase::Storing { create }, PasswordSyncEvent::Stored) => (
            PasswordSyncPhase::Finished,
            PasswordSyncAction::Complete(Ok(if create { PasswordSync::Created } else { PasswordSync::Updated })),
        ),
        (PasswordSyncPhase::Storing { create }, PasswordSyncEvent::StoreFailed(db)) => (
            PasswordSyncPhase::Finished,
            PasswordSyncAction::Complete(Err(if create { AuthError::internal(db) } else { map_credential_state_error(db) })),
        ),
        _ => (PasswordSyncPhase::Finished, PasswordSyncAction::Complete(Err(AuthError::Internal))),
    }
}

/// The stored hash is left unchanged only when the configured password
/// was verified to match it.
pub proof fn lemma_unchanged_only_when_matching(phase: PasswordSyncPhase, event: PasswordSyncEvent)
    ensures
        spec_password_sync_step(phase, event).1 == PasswordSyncAction::Complete(Ok(PasswordSync::Unchanged))
            ==> phase == PasswordSyncPhase::Verifying && event == (PasswordSyncEvent::Verified { matched: true }),
{
}

/// The parameters a parsed hash reports, as a tuple.
pub open spec fn params_tuple(p: Option<Argon2Params>) -> Option<(u32, u32, u32, Option<usize>, usize, usize)> {
    match p {
        Some(q) => Some((q.m_cost, q.t_cost, q.p_cost, q.output_len, q.keyid_len, q.data_len)),
        None => None,
    }
}

/// A stored hash is usable when it parses as Argon2id version 0x13.
pub open spec fn spec_hash_usable(phc: Seq<char>) -> bool {
    spec_phc_fields(phc) matches Some((algorithm, version, _)) && algorithm == "argon2id"@ && version == Some(0x13u32)
}

/// The parameters new hashes use (`argon2()`), as the tuple that
/// `spec_argon2id_hash` takes.
pub open spec fn current_hash_params() -> (u32, u32, u32, Option<usize>) {
    (19456u32, 2u32, 1u32, Some(32usize))
}

/// The current parameters, as a tuple.
pub open spec fn current_params() -> (u32, u32, u32, Option<usize>, usize, usize) {
    (19456, 2, 1, Some(32usize), 0usize, 0usize)
}

/// A hash that a password check accepts for this password at once: usable,
/// matching, and made with the current parameters.
pub open spec fn fresh_hash_of(phc: Seq<char>, password: Seq<char>) -> bool {
    &&& spec_hash_usable(phc)
    &&& spec_argon2_verifies(phc, vstd::utf8::encode_utf8(password))
    &&& spec_phc_fields(phc) matches Some((_, _, p)) && p == Some(current_params())
}

/// Whether a password hash may run now: it needs one of the hashing
/// permits; when all are taken the caller is told to retry after a second.
pub fn argon2_admission(permit_acquired: bool) -> (r: Result<(), AuthError>)
    ensures
        permit_acquired ==> r is Ok,
        !permit_acquired ==> r == Err::<(), AuthError>(AuthError::RateLimited { retry_after_seconds: 1 }),
{
    if permit_acquired {
        Ok(())
    } else {
        Err(AuthError::RateLimited { retry_after_seconds: 1 })
    }
}

/// The answer of a password hash that ran on the blocking pool: its own
/// answer, or an internal failure when the task did not come back.
pub fn argon2_outcome<T>(joined: Option<Result<T, AuthError>>) -> (r: Result<T, AuthError>)
    ensures
        r == (match joined {
            Some(answer) => answer,
            None => Err(AuthError::Internal),
        }),
{
    match joined {
        Some(answer) => answer,
        None => Err(AuthError::Internal),
    }
}

/// Hashes a password with Argon2id and a fresh 16-byte random salt: the
/// outcome of `hash_password_with_salt` with the salt drawn, unless the
/// random source fails. The hash verifies the same password and carries
/// the current parameters.
pub fn hash_password(password: &str) -> (res: Result<String, AuthError>)
    ensures
        res matches Ok(h) ==> exists|salt: Seq<u8>| salt.len() == 16
            && #[trigger] spec_argon2id_hash(vstd::utf8::encode_utf8(password@), salt, current_hash_params()) == Some(h@),
        res matches Ok(h) ==> fresh_hash_of(h@, password@),
        res matches Err(e) ==> e == AuthError::Internal,
{
    let salt = random_bytes(16)?;
    hash_password_with_salt(password, salt.as_slice())
}

/// Hashes a password with Argon2id, the current parameters and this
/// 16-byte salt: the PHC string that Argon2id gives, or an internal
/// failure exactly when Argon2id gives none. A hash made here verifies the
/// same password and carries the current parameters.
pub fn hash_password_with_salt(password: &str, salt: &[u8]) -> (res: Result<String, AuthError>)
    requires
        salt@.len() == 16,
    ensures
        match spec_argon2id_hash(vstd::utf8::encode_utf8(password@), salt@, current_hash_params()) {
            Some(h) => res matches Ok(r) && r@ == h,
            None => res == Err::<String, AuthError>(AuthError::Internal),
        },
        res matches Ok(h) ==> fresh_hash_of(h@, password@),
{
    proof {
        reveal_strlit("argon2id");
    }
    match argon2id_hash(password.as_bytes(), salt, argon2()) {
        Some(h) => Ok(h),
        None => Err(AuthError::internal(())),
    }
}

/// What a password check may answer for this stored hash and password: a
/// hash that is not usable means invalid credentials; otherwise either an
/// internal failure, owed only on the path that makes a new hash, or the
/// match, with a new hash exactly when the password matched a hash with
/// outdated or unreadable parameters.
pub open spec fn verification_allowed(phc: Seq<char>, password: Seq<char>, res: Result<Verification, AuthError>) -> bool {
    &&& !spec_hash_usable(phc) ==> res == Err::<Verification, AuthError>(AuthError::InvalidCredentials)
    &&& spec_hash_usable(phc) ==> match res {
        Ok(v) => {
            &&& v.matched == spec_argon2_verifies(phc, vstd::utf8::encode_utf8(password))
            &&& (v.replacement_phc is Some <==> (v.matched && (spec_phc_fields(phc) matches Some((_, _, p)) && p != Some(current_params()))))
            &&& (v.replacement_phc matches Some(h) ==> exists|salt: Seq<u8>| salt.len() == 16
                && #[trigger] spec_argon2id_hash(vstd::utf8::encode_utf8(password), salt, current_hash_params()) == Some(h@))
        },
        Err(e) => e == AuthError::Internal,
    }
    &&& spec_hash_usable(phc) && !(spec_argon2_verifies(phc, vstd::utf8::encode_utf8(password))
        && (spec_phc_fields(phc) matches Some((_, _, p)) && p != Some(current_params()))) ==> res is Ok
}

/// A hash made by `hash_password` lets the same password in: checking the
/// password against it succeeds, matches, and asks for no new hash.
pub proof fn lemma_fresh_hash_logs_in(phc: Seq<char>, password: Seq<char>, res: Result<Verification, AuthError>)
    requires
        fresh_hash_of(phc, password),
        verification_allowed(phc, password, res),
    ensures
        res matches Ok(v) && v.matched && v.replacement_phc is None,
{
}

/// Checks a password against a stored hash. A hash that is not Argon2id
/// version 0x13 means invalid credentials; otherwise the answer says
/// whether the password matched, and a matching password whose hash uses
/// outdated (or unreadable) parameters gets a new hash.
pub fn verify_password(phc: &str, password: &str) -> (res: Result<Verification, AuthError>)
    ensures
        verification_allowed(phc@, password@, res),
{
    proof {
        reveal_strlit("argon2id");
    }
    let fields = phc_fields(phc);
    let summary = match fields {
        Some((algorithm, version, params)) => Some(PhcSummary {
            algorithm_is_argon2id: crate::text::str_eq(algorithm.as_str(), "argon2id"),
            version_is_0x13: match version {
                Some(v) => v == 0x13,
                None => false,
            },
            params,
        }),
        None => None,
    };
    let summary = check_stored_hash(summary)?;
    let matched = argon2_verifies(phc, password.as_bytes());
    let replacement_phc = if should_replace_hash(matched, summary.params) {
        Some(hash_password(password)?)
    } else {
        None
    };
    Ok(Verification { matched, replacement_phc })
}

} // verus!
