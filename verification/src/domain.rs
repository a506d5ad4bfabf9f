//! Value types shared by the services: job classes and priorities, Pixiv
//! error classes, storage errors and account states.

use vstd::prelude::*;
use crate::text::str_eq;

verus! {

/// How a failed job should be treated by the retry policy.
#[derive(Clone, Copy, Debug, PartialEq, Eq, Structural)]
pub enum JobErrorClass {
    Network,
    Server,
    RateLimit,
    CredentialInvalid,
    Permanent,
}

/// The stored name of each error class.
pub open spec fn job_error_class_name(class: JobErrorClass) -> Seq<char> {
    match class {
        JobErrorClass::Network => "network"@,
        JobErrorClass::Server => "server"@,
        JobErrorClass::RateLimit => "rate_limit"@,
        JobErrorClass::CredentialInvalid => "credential_invalid"@,
        JobErrorClass::Permanent => "permanent"@,
    }
}

impl JobErrorClass {
    /// The class stored under a name, if it is one of the five names.
    pub fn from_db_value(value: &str) -> (class: Option<JobErrorClass>)
        ensures
            class matches Some(c) ==> job_error_class_name(c) == value@,
            class is None ==> forall|c: JobErrorClass| job_error_class_name(c) != value@,
    {
        proof {
            reveal_strlit("network");
            reveal_strlit("server");
            reveal_strlit("rate_limit");
            reveal_strlit("credential_invalid");
            reveal_strlit("permanent");
        }
        if str_eq(value, "network") {
            Some(JobErrorClass::Network)
        } else if str_eq(value, "server") {
            Some(JobErrorClass::Server)
        } else if str_eq(value, "rate_limit") {
            Some(JobErrorClass::RateLimit)
        } else if str_eq(value, "credential_invalid") {
            Some(JobErrorClass::CredentialInvalid)
        } else if str_eq(value, "permanent") {
            Some(JobErrorClass::Permanent)
        } else {
            None
        }
    }

    pub fn as_str(self) -> (s: &'static str)
        ensures
            s@ == job_error_class_name(self),
    {
        match self {
            JobErrorClass::Network => "network",
            JobErrorClass::Server => "server",
            JobErrorClass::RateLimit => "rate_limit",
            JobErrorClass::CredentialInvalid => "credential_invalid",
            JobErrorClass::Permanent => "permanent",
        }
    }
}

/// Each class's stored name reads back as that class, and no two classes
/// share a name.
pub proof fn lemma_error_class_names_round_trip(a: JobErrorClass, b: JobErrorClass)
    ensures
        job_error_class_name(a) == job_error_class_name(b) ==> a == b,
{
    reveal_strlit("network");
    reveal_strlit("server");
    reveal_strlit("rate_limit");
    reveal_strlit("credential_invalid");
    reveal_strlit("permanent");
    if a != b {
        assert(job_error_class_name(a).len() != job_error_class_name(b).len());
    }
}

/// Queue classes that the quota rotation alternates between.
#[derive(Clone, Copy, Debug, PartialEq, Eq, Structural)]
pub enum JobPriority {
    Immediate,
    ManualImport,
    ScheduledCollection,
    BackgroundMaintenance,
}

/// A claim request: the preferred priority class, falling back to the
/// other classes when it has no work.
#[derive(Clone, Copy, Debug, PartialEq, Eq, Structural)]
pub struct JobQuotaSelection {
    pub preferred: JobPriority,
    pub fallback: bool,
}

impl JobQuotaSelection {
    pub fn with_fallback(priority: JobPriority) -> (s: Self)
        ensures
            s.preferred == priority,
            s.fallback,
    {
        JobQuotaSelection { preferred: priority, fallback: true }
    }
}

/// Classification of a failed Pixiv request.
#[derive(Clone, Copy, Debug, PartialEq, Eq, Structural)]
pub enum PixivErrorClass {
    Network,
    RateLimited,
    CredentialInvalid,
    CsrfFailed,
    TemporaryPixivError,
    InvalidJsonOrInterstitial,
    HiddenOrNotFound,
    AgeRestrictedDisabled,
    ResponseTooLarge,
    InvalidResponse,
}

/// The stored name of each Pixiv error class.
pub open spec fn pixiv_error_class_name(class: PixivErrorClass) -> Seq<char> {
    match class {
        PixivErrorClass::Network => "network"@,
        PixivErrorClass::RateLimited => "rate_limited"@,
        PixivErrorClass::CredentialInvalid => "credential_invalid"@,
        PixivErrorClass::CsrfFailed => "csrf_failed"@,
        PixivErrorClass::TemporaryPixivError => "temporary_pixiv_error"@,
        PixivErrorClass::InvalidJsonOrInterstitial => "invalid_json_or_interstitial"@,
        PixivErrorClass::HiddenOrNotFound => "hidden_or_not_found"@,
        PixivErrorClass::AgeRestrictedDisabled => "age_restricted_disabled"@,
        PixivErrorClass::ResponseTooLarge => "response_too_large"@,
        PixivErrorClass::InvalidResponse => "invalid_response"@,
    }
}

impl PixivErrorClass {
    pub fn as_str(self) -> (s: &'static str)
        ensures
            s@ == pixiv_error_class_name(self),
    {
        match self {
            PixivErrorClass::Network => "network",
            PixivErrorClass::RateLimited => "rate_limited",
            PixivErrorClass::CredentialInvalid => "credential_invalid",
            PixivErrorClass::CsrfFailed => "csrf_failed",
            PixivErrorClass::TemporaryPixivError => "temporary_pixiv_error",
            PixivErrorClass::InvalidJsonOrInterstitial => "invalid_json_or_interstitial",
            PixivErrorClass::HiddenOrNotFound => "hidden_or_not_found",
            PixivErrorClass::AgeRestrictedDisabled => "age_restricted_disabled",
            PixivErrorClass::ResponseTooLarge => "response_too_large",
            PixivErrorClass::InvalidResponse => "invalid_response",
        }
    }
}

/// Failures reported by the storage layer.
#[derive(Clone, Debug, PartialEq, Eq)]
pub enum DbError {
    Connection(String),
    Migration(String),
    RevisionConflict,
    LeaseConflict,
    Query(String),
    RateLimited { retry_after_seconds: u64 },
    Constraint(String),
    NotFound,
    InvalidValue(String),
}

/// State of the configured Pixiv account.
#[derive(Clone, Copy, Debug, PartialEq, Eq, Structural)]
pub enum PixivAccountState {
    Unconfigured,
    Normal,
    Validating,
    Restricted,
    CredentialInvalid,
}

} // verus!
