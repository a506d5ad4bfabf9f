//! Validation of the administrator-editable setting groups, and the
//! effective settings that the services read.

use vstd::prelude::*;
use crate::domain::DbError;

verus! {

#[derive(Debug, PartialEq, Eq)]
pub enum SettingsError {
    UnknownGroup,
    WrongGroup,
    UnsupportedSchemaVersion,
    InvalidField(&'static str),
    EmptyBatch,
    DuplicateGroup,
    RevisionConflict,
    Storage,
}

/// The error of a failed field check names the field.
pub open spec fn invalid_field(e: SettingsError, field: Seq<char>) -> bool {
    e matches SettingsError::InvalidField(f) && f@ == field
}

/// The settings error that a storage failure surfaces as.
pub open spec fn spec_settings_error_from_db(error: DbError) -> SettingsError {
    match error {
        DbError::RevisionConflict => SettingsError::RevisionConflict,
        _ => SettingsError::Storage,
    }
}

impl From<DbError> for SettingsError {
    fn from(error: DbError) -> (e: Self) {
        match error {
            DbError::RevisionConflict => SettingsError::RevisionConflict,
            _ => SettingsError::Storage,
        }
    }
}

impl vstd::std_specs::convert::FromSpecImpl<DbError> for SettingsError {
    open spec fn obeys_from_spec() -> bool {
        true
    }

    open spec fn from_spec(v: DbError) -> Self {
        spec_settings_error_from_db(v)
    }
}

/// A duration in seconds is usable when it is positive and representable
/// as a signed 64-bit number of seconds.
pub open spec fn spec_valid_duration_seconds(value: u64) -> bool {
    0 < value <= i64::MAX
}

pub fn valid_duration_seconds(value: u64) -> (valid: bool)
    ensures
        valid == spec_valid_duration_seconds(value),
{
    value > 0 && value <= i64::MAX as u64
}

/// Optional features of this deployment that some settings depend on.
#[derive(Clone, Copy, Debug)]
pub struct DeploymentCapabilities {
    pub avif_derivatives: bool,
}

impl Default for DeploymentCapabilities {
    fn default() -> (c: Self)
        ensures
            !c.avif_derivatives,
    {
        DeploymentCapabilities { avif_derivatives: false }
    }
}

/// Failed attempts allowed within a window before a cooldown applies.
#[derive(Clone, Copy, Debug, PartialEq, Eq, Structural)]
pub struct FailureLimit {
    pub threshold: u16,
    pub window_seconds: u64,
    pub cooldown_seconds: u64,
}

pub open spec fn spec_failure_limit_valid(l: FailureLimit) -> bool {
    l.threshold != 0 && spec_valid_duration_seconds(l.window_seconds) && spec_valid_duration_seconds(l.cooldown_seconds)
}

impl FailureLimit {
    pub fn new(threshold: u16, window_seconds: u64, cooldown_seconds: u64) -> (l: Self)
        ensures
            l == (FailureLimit { threshold, window_seconds, cooldown_seconds }),
    {
        FailureLimit { threshold, window_seconds, cooldown_seconds }
    }

    pub fn validate(&self, field: &'static str) -> (res: Result<(), SettingsError>)
        ensures
            res is Ok <==> spec_failure_limit_valid(*self),
            res matches Err(e) ==> e == SettingsError::InvalidField(field),
    {
        if self.threshold == 0 || !valid_duration_seconds(self.window_seconds)
            || !valid_duration_seconds(self.cooldown_seconds) {
            Err(SettingsError::InvalidField(field))
        } else {
            Ok(())
        }
    }

    /// The counting window, in seconds.
    pub fn window(&self) -> (seconds: i64)
        requires
            self.window_seconds <= i64::MAX,
        ensures
            seconds == self.window_seconds,
    {
        self.window_seconds as i64
    }

    /// The cooldown, in seconds.
    pub fn cooldown(&self) -> (seconds: i64)
        requires
            self.cooldown_seconds <= i64::MAX,
        ensures
            seconds == self.cooldown_seconds,
    {
        self.cooldown_seconds as i64
    }
}

/// Session lifetimes and login failure limits.
#[derive(Clone, Copy, Debug, PartialEq, Eq, Structural)]
pub struct SecuritySettings {
    pub session_idle_timeout_seconds: u64,
    pub session_absolute_timeout_seconds: u64,
    pub last_activity_persist_interval_seconds: u64,
    pub password_failures: FailureLimit,
    pub shared_account_failures: FailureLimit,
    pub entry_source_failures: FailureLimit,
}

/// Thirty days idle, one hundred eighty days absolute, activity written
/// every minute; five password failures per ten minutes, twelve shared
/// failures per fifteen minutes, twenty per source per ten minutes.
pub open spec fn default_security_settings() -> SecuritySettings {
    SecuritySettings {
        session_idle_timeout_seconds: 2592000,
        session_absolute_timeout_seconds: 15552000,
        last_activity_persist_interval_seconds: 60,
        password_failures: FailureLimit { threshold: 5, window_seconds: 600, cooldown_seconds: 900 },
        shared_account_failures: FailureLimit { threshold: 12, window_seconds: 900, cooldown_seconds: 900 },
        entry_source_failures: FailureLimit { threshold: 20, window_seconds: 600, cooldown_seconds: 600 },
    }
}

impl Default for SecuritySettings {
    fn default() -> (s: Self)
        ensures
            s == default_security_settings(),
    {
        SecuritySettings {
            session_idle_timeout_seconds: 30 * 24 * 60 * 60,
            session_absolute_timeout_seconds: 180 * 24 * 60 * 60,
            last_activity_persist_interval_seconds: 60,
            password_failures: FailureLimit::new(5, 10 * 60, 15 * 60),
            shared_account_failures: FailureLimit::new(12, 15 * 60, 15 * 60),
            entry_source_failures: FailureLimit::new(20, 10 * 60, 10 * 60),
        }
    }
}

/// The session timeouts are usable and coherent: the absolute timeout is at
/// least the idle timeout, and activity is persisted at least once per idle period.
pub open spec fn spec_session_timeouts_valid(s: SecuritySettings) -> bool {
    &&& spec_valid_duration_seconds(s.session_idle_timeout_seconds)
    &&& spec_valid_duration_seconds(s.session_absolute_timeout_seconds)
    &&& spec_valid_duration_seconds(s.last_activity_persist_interval_seconds)
    &&& s.session_absolute_timeout_seconds >= s.session_idle_timeout_seconds
    &&& s.last_activity_persist_interval_seconds <= s.session_idle_timeout_seconds
}

/// The field that security validation rejects first, if any.
pub open spec fn spec_security_invalid_field(s: SecuritySettings) -> Option<Seq<char>> {
    if !spec_session_timeouts_valid(s) {
        Some("security.session_timeout"@)
    } else if !spec_failure_limit_valid(s.password_failures) {
        Some("security.password_failures"@)
    } else if !spec_failure_limit_valid(s.shared_account_failures) {
        Some("security.shared_account_failures"@)
    } else if !spec_failure_limit_valid(s.entry_source_failures) {
        Some("security.entry_source_failures"@)
    } else {
        None
    }
}

impl SecuritySettings {
    pub fn validate(&self) -> (res: Result<(), SettingsError>)
        ensures
            res is Ok <==> spec_security_invalid_field(*self) is None,
            res matches Err(e) ==> invalid_field(e, spec_security_invalid_field(*self)->0),
    {
        if !valid_duration_seconds(self.session_idle_timeout_seconds)
            || !valid_duration_seconds(self.session_absolute_timeout_seconds)
            || !valid_duration_seconds(self.last_activity_persist_interval_seconds)
            || self.session_absolute_timeout_seconds < self.session_idle_timeout_seconds
            || self.last_activity_persist_interval_seconds > self.session_idle_timeout_seconds {
            return Err(SettingsError::InvalidField("security.session_timeout"));
        }
        self.password_failures.validate("security.password_failures")?;
        self.shared_account_failures.validate("security.shared_account_failures")?;
        self.entry_source_failures.validate("security.entry_source_failures")?;
        Ok(())
    }

    /// Idle session lifetime, in seconds.
    pub fn session_idle_timeout(&self) -> (seconds: i64)
        requires
            self.session_idle_timeout_seconds <= i64::MAX,
        ensures
            seconds == self.session_idle_timeout_seconds,
    {
        self.session_idle_timeout_seconds as i64
    }

    /// Absolute session lifetime, in seconds.
    pub fn session_absolute_timeout(&self) -> (seconds: i64)
        requires
            self.session_absolute_timeout_seconds <= i64::MAX,
        ensures
            seconds == self.session_absolute_timeout_seconds,
    {
        self.session_absolute_timeout_seconds as i64
    }

    /// How often session activity is written back, in seconds.
    pub fn last_activity_persist_interval(&self) -> (seconds: i64)
        requires
            self.last_activity_persist_interval_seconds <= i64::MAX,
        ensures
            seconds == self.last_activity_persist_interval_seconds,
    {
        self.last_activity_persist_interval_seconds as i64
    }
}


/// Whether a text starts with `/`, i.e. names an absolute path.
pub open spec fn spec_is_absolute(path: Seq<char>) -> bool {
    path.len() > 0 && path[0] == '/'
}

pub fn is_absolute_path(path: &str) -> (absolute: bool)
    ensures
        absolute == spec_is_absolute(path@),
{
    path.unicode_len() > 0 && path.get_char(0) == '/'
}

/// Where media is stored and when writing has to stop.
#[derive(Clone, Debug)]
pub struct StorageSettings {
    pub media_root: Option<String>,
    pub warning_threshold_bytes: u64,
    pub media_write_stop_threshold_bytes: u64,
    pub trash_retention_days: u16,
}

impl Default for StorageSettings {
    fn default() -> (s: Self)
        ensures
            s.media_root is None,
            s.warning_threshold_bytes == 107374182400,
            s.media_write_stop_threshold_bytes == 34359738368,
            s.trash_retention_days == 30,
    {
        StorageSettings {
            media_root: None,
            warning_threshold_bytes: 100 * 1024 * 1024 * 1024,
            media_write_stop_threshold_bytes: 32 * 1024 * 1024 * 1024,
            trash_retention_days: 30,
        }
    }
}

/// The field that storage validation rejects first, if any.
pub open spec fn spec_storage_invalid_field(s: StorageSettings) -> Option<Seq<char>> {
    if s.media_root matches Some(root) && !spec_is_absolute(root@) {
        Some("storage.media_root"@)
    } else if s.media_write_stop_threshold_bytes >= s.warning_threshold_bytes {
        Some("storage.thresholds"@)
    } else if !(1 <= s.trash_retention_days <= 365) {
        Some("storage.trash_retention_days"@)
    } else {
        None
    }
}

impl StorageSettings {
    pub fn validate(&self) -> (res: Result<(), SettingsError>)
        ensures
            res is Ok <==> spec_storage_invalid_field(*self) is None,
            res matches Err(e) ==> invalid_field(e, spec_storage_invalid_field(*self)->0),
    {
        match &self.media_root {
            Some(root) => {
                if !is_absolute_path(root.as_str()) {
                    return Err(SettingsError::InvalidField("storage.media_root"));
                }
            },
            None => {},
        }
        if self.media_write_stop_threshold_bytes >= self.warning_threshold_bytes {
            return Err(SettingsError::InvalidField("storage.thresholds"));
        }
        if !(1 <= self.trash_retention_days && self.trash_retention_days <= 365) {
            return Err(SettingsError::InvalidField("storage.trash_retention_days"));
        }
        Ok(())
    }

    /// The configured media root, or the bootstrap root when none is configured.
    pub fn active_media_root(&self, bootstrap: String) -> (root: String)
        ensures
            root@ == match self.media_root {
                Some(r) => r@,
                None => bootstrap@,
            },
    {
        match &self.media_root {
            Some(r) => r.clone(),
            None => bootstrap,
        }
    }
}

/// Storage settings are accepted exactly when the media root, if any, is
/// absolute, writes stop strictly below the warning threshold, and trash
/// is kept between one and 365 days; each rule that fails names its field,
/// checked in that order.
pub proof fn lemma_storage_validation(s: StorageSettings)
    ensures
        ({
            let root_ok = !(s.media_root matches Some(r) && !(r@.len() > 0 && r@[0] == '/'));
            let thresholds_ok = s.media_write_stop_threshold_bytes < s.warning_threshold_bytes;
            let days_ok = 1 <= s.trash_retention_days <= 365;
            &&& spec_storage_invalid_field(s) is None <==> root_ok && thresholds_ok && days_ok
            &&& !root_ok ==> spec_storage_invalid_field(s) == Some("storage.media_root"@)
            &&& root_ok && !thresholds_ok ==> spec_storage_invalid_field(s) == Some("storage.thresholds"@)
            &&& root_ok && thresholds_ok && !days_ok ==> spec_storage_invalid_field(s) == Some("storage.trash_retention_days"@)
        }),
{
}

/// Security settings are accepted exactly when the idle, absolute and
/// persist durations are usable, the absolute lifetime is at least the
/// idle one, activity is written at least once per idle period, and each
/// failure limit has a threshold and usable durations; the session
/// lifetimes are checked first, then the password, shared and entry limits.
pub proof fn lemma_security_validation(s: SecuritySettings)
    ensures
        ({
            let limit_ok = |l: FailureLimit| l.threshold != 0 && (0 < l.window_seconds <= i64::MAX)
                && (0 < l.cooldown_seconds <= i64::MAX);
            let sessions_ok = (0 < s.session_idle_timeout_seconds <= i64::MAX)
                && (0 < s.session_absolute_timeout_seconds <= i64::MAX)
                && (0 < s.last_activity_persist_interval_seconds <= i64::MAX)
                && s.session_idle_timeout_seconds <= s.session_absolute_timeout_seconds
                && s.last_activity_persist_interval_seconds <= s.session_idle_timeout_seconds;
            &&& spec_security_invalid_field(s) is None <==> sessions_ok && limit_ok(s.password_failures)
                && limit_ok(s.shared_account_failures) && limit_ok(s.entry_source_failures)
            &&& !sessions_ok ==> spec_security_invalid_field(s) == Some("security.session_timeout"@)
            &&& sessions_ok && !limit_ok(s.password_failures) ==> spec_security_invalid_field(s) == Some("security.password_failures"@)
            &&& sessions_ok && limit_ok(s.password_failures) && !limit_ok(s.shared_account_failures)
                ==> spec_security_invalid_field(s) == Some("security.shared_account_failures"@)
            &&& sessions_ok && limit_ok(s.password_failures) && limit_ok(s.shared_account_failures)
                && !limit_ok(s.entry_source_failures) ==> spec_security_invalid_field(s) == Some("security.entry_source_failures"@)
        }),
{
}

/// Delays between retries of transient failures, in seconds.
#[derive(Clone, Debug)]
pub struct RetrySettings {
    pub network_backoff_seconds: Vec<u32>,
}

impl Default for RetrySettings {
    fn default() -> (s: Self)
        ensures
            s.network_backoff_seconds@ == seq![60u32, 300, 1200, 3600],
    {
        let s = RetrySettings { network_backoff_seconds: vec![60u32, 300, 1200, 3600] };
        assert(s.network_backoff_seconds@ == seq![60u32, 300, 1200, 3600]);
        s
    }
}

/// A usable retry schedule: non-empty, no zero delay, strictly increasing.
pub open spec fn spec_retry_schedule_valid(s: Seq<u32>) -> bool {
    &&& s.len() > 0
    &&& forall|i: int| 0 <= i < s.len() ==> #[trigger] s[i] != 0
    &&& forall|i: int| 0 <= i < s.len() - 1 ==> #[trigger] s[i] < s[i + 1]
}

impl RetrySettings {
    pub fn validate(&self) -> (res: Result<(), SettingsError>)
        ensures
            res is Ok <==> spec_retry_schedule_valid(self.network_backoff_seconds@),
            res matches Err(e) ==> invalid_field(e, "retry.network_backoff_seconds"@),
    {
        let s = &self.network_backoff_seconds;
        if s.len() == 0 {
            return Err(SettingsError::InvalidField("retry.network_backoff_seconds"));
        }
        let mut i: usize = 0;
        while i < s.len()
            invariant
                i <= s.len(),
                s@ == self.network_backoff_seconds@,
                forall|j: int| 0 <= j < i ==> #[trigger] s@[j] != 0,
            decreases s.len() - i,
        {
            if s[i] == 0 {
                assert(s@[i as int] == 0);
                return Err(SettingsError::InvalidField("retry.network_backoff_seconds"));
            }
            i = i + 1;
        }
        let mut k: usize = 0;
        while k + 1 < s.len()
            invariant
                s.len() > 0,
                k + 1 <= s.len(),
                s@ == self.network_backoff_seconds@,
                forall|j: int| 0 <= j < s.len() ==> #[trigger] s@[j] != 0,
                forall|j: int| 0 <= j < k ==> #[trigger] s@[j] < s@[j + 1],
            decreases s.len() - k,
        {
            if s[k] >= s[k + 1] {
                assert(!(s@[k as int] < s@[k as int + 1]));
                return Err(SettingsError::InvalidField("retry.network_backoff_seconds"));
            }
            k = k + 1;
        }
        Ok(())
    }
}

/// A schedule accepted by validation increases strictly across any two
/// positions, not only neighbouring ones.
pub proof fn lemma_retry_schedule_sorted(s: Seq<u32>, i: int, j: int)
    requires
        spec_retry_schedule_valid(s),
        0 <= i < j < s.len(),
    ensures
        s[i] < s[j],
    decreases j - i,
{
    if j == i + 1 {
        assert(s[i] < s[i + 1]);
    } else {
        lemma_retry_schedule_sorted(s, i, j - 1);
        assert(s[j - 1] < s[j - 1 + 1]);
    }
}

/// Per-class claim weights as stored in the queue settings group.
#[derive(Clone, Copy, Debug, PartialEq, Eq, Structural)]
pub struct QueueQuotaWeights {
    pub immediate: u16,
    pub manual_import: u16,
    pub scheduled_collection: u16,
    pub background_maintenance: u16,
}

impl Default for QueueQuotaWeights {
    fn default() -> (w: Self)
        ensures
            w == (QueueQuotaWeights { immediate: 4, manual_import: 8, scheduled_collection: 2, background_maintenance: 1 }),
    {
        QueueQuotaWeights { immediate: 4, manual_import: 8, scheduled_collection: 2, background_maintenance: 1 }
    }
}

/// The queue settings group.
#[derive(Clone, Copy, Debug, PartialEq, Eq, Structural)]
pub struct QueueSettings {
    pub quota_weights: QueueQuotaWeights,
}

impl Default for QueueSettings {
    fn default() -> (s: Self)
        ensures
            s.quota_weights == (QueueQuotaWeights { immediate: 4, manual_import: 8, scheduled_collection: 2, background_maintenance: 1 }),
    {
        QueueSettings { quota_weights: QueueQuotaWeights::default() }
    }
}

impl QueueSettings {
    pub fn validate(&self) -> (res: Result<(), SettingsError>)
        ensures
            res is Ok,
    {
        Ok(())
    }
}

/// Requests allowed per period.
#[derive(Clone, Copy, Debug, PartialEq, Eq, Structural)]
pub struct RateLimit {
    pub requests: u16,
    pub per_seconds: u32,
}

impl RateLimit {
    pub fn validate(&self, field: &'static str) -> (res: Result<(), SettingsError>)
        ensures
            res is Ok <==> self.per_seconds != 0,
            res matches Err(e) ==> e == SettingsError::InvalidField(field),
    {
        if self.per_seconds == 0 {
            Err(SettingsError::InvalidField(field))
        } else {
            Ok(())
        }
    }
}

/// Concurrency and rate limits of the worker stages.
#[derive(Clone, Copy, Debug, PartialEq, Eq, Structural)]
pub struct ProcessingSettings {
    pub pixiv_request_concurrency: u16,
    pub pixiv_request_rate: RateLimit,
    pub media_download_concurrency: u16,
    pub media_download_rate: RateLimit,
    pub media_cpu_concurrency: u16,
}

pub open spec fn default_processing_settings() -> ProcessingSettings {
    ProcessingSettings {
        pixiv_request_concurrency: 2,
        pixiv_request_rate: RateLimit { requests: 60, per_seconds: 60 },
        media_download_concurrency: 2,
        media_download_rate: RateLimit { requests: 20, per_seconds: 60 },
        media_cpu_concurrency: 1,
    }
}

impl Default for ProcessingSettings {
    fn default() -> (s: Self)
        ensures
            s == default_processing_settings(),
    {
        ProcessingSettings {
            pixiv_request_concurrency: 2,
            pixiv_request_rate: RateLimit { requests: 60, per_seconds: 60 },
            media_download_concurrency: 2,
            media_download_rate: RateLimit { requests: 20, per_seconds: 60 },
            media_cpu_concurrency: 1,
        }
    }
}

pub open spec fn spec_processing_invalid_field(s: ProcessingSettings) -> Option<Seq<char>> {
    if s.pixiv_request_rate.per_seconds == 0 {
        Some("processing.pixiv_request_rate"@)
    } else if s.media_download_rate.per_seconds == 0 {
        Some("processing.media_download_rate"@)
    } else {
        None
    }
}

impl ProcessingSettings {
    pub fn validate(&self) -> (res: Result<(), SettingsError>)
        ensures
            res is Ok <==> spec_processing_invalid_field(*self) is None,
            res matches Err(e) ==> invalid_field(e, spec_processing_invalid_field(*self)->0),
    {
        self.pixiv_request_rate.validate("processing.pixiv_request_rate")?;
        self.media_download_rate.validate("processing.media_download_rate")
    }
}

/// Processing settings are accepted exactly when both rates have a
/// non-zero period; the Pixiv request rate is checked first.
pub proof fn lemma_processing_validation(s: ProcessingSettings)
    ensures
        spec_processing_invalid_field(s) is None <==> s.pixiv_request_rate.per_seconds != 0 && s.media_download_rate.per_seconds != 0,
        s.pixiv_request_rate.per_seconds == 0 ==> spec_processing_invalid_field(s) == Some("processing.pixiv_request_rate"@),
        s.pixiv_request_rate.per_seconds != 0 && s.media_download_rate.per_seconds == 0
            ==> spec_processing_invalid_field(s) == Some("processing.media_download_rate"@),
{
}

/// Output format of generated derivatives.
#[derive(Clone, Copy, Debug, PartialEq, Eq, Structural)]
pub enum DerivativeFormat {
    Webp,
    Avif,
}

/// How display derivatives are generated.
#[derive(Clone, Copy, Debug, PartialEq, Eq, Structural)]
pub struct DerivativeSettings {
    pub format: DerivativeFormat,
    pub max_width: u32,
    pub webp_quality: u8,
    pub avif_quality: u8,
}

pub open spec fn default_derivative_settings() -> DerivativeSettings {
    DerivativeSettings { format: DerivativeFormat::Webp, max_width: 768, webp_quality: 80, avif_quality: 50 }
}

impl Default for DerivativeSettings {
    fn default() -> (s: Self)
        ensures
            s == default_derivative_settings(),
    {
        DerivativeSettings { format: DerivativeFormat::Webp, max_width: 768, webp_quality: 80, avif_quality: 50 }
    }
}

pub open spec fn spec_derivative_invalid_field(s: DerivativeSettings, avif_available: bool) -> Option<Seq<char>> {
    if s.max_width == 0 || !(1 <= s.webp_quality <= 100) || !(1 <= s.avif_quality <= 100) {
        Some("derivative.output"@)
    } else if s.format == DerivativeFormat::Avif && !avif_available {
        Some("derivative.format"@)
    } else {
        None
    }
}

impl DerivativeSettings {
    pub fn validate(&self, capabilities: &DeploymentCapabilities) -> (res: Result<(), SettingsError>)
        ensures
            res is Ok <==> spec_derivative_invalid_field(*self, capabilities.avif_derivatives) is None,
            res matches Err(e) ==> invalid_field(e, spec_derivative_invalid_field(*self, capabilities.avif_derivatives)->0),
    {
        if self.max_width == 0 || !(1 <= self.webp_quality && self.webp_quality <= 100)
            || !(1 <= self.avif_quality && self.avif_quality <= 100) {
            return Err(SettingsError::InvalidField("derivative.output"));
        }
        match self.format {
            DerivativeFormat::Avif => {
                if capabilities.avif_derivatives {
                    Ok(())
                } else {
                    Err(SettingsError::InvalidField("derivative.format"))
                }
            },
            DerivativeFormat::Webp => Ok(()),
        }
    }
}

/// Derivative settings are accepted exactly when the width is positive,
/// both qualities lie in 1..=100 and AVIF is chosen only where it is
/// available; the output limits are checked before the format.
pub proof fn lemma_derivative_validation(s: DerivativeSettings, avif_available: bool)
    ensures
        ({
            let output_ok = s.max_width > 0 && 1 <= s.webp_quality <= 100 && 1 <= s.avif_quality <= 100;
            let format_ok = s.format == DerivativeFormat::Webp || avif_available;
            &&& spec_derivative_invalid_field(s, avif_available) is None <==> output_ok && format_ok
            &&& !output_ok ==> spec_derivative_invalid_field(s, avif_available) == Some("derivative.output"@)
            &&& output_ok && !format_ok ==> spec_derivative_invalid_field(s, avif_available) == Some("derivative.format"@)
        }),
{
}

/// Limits applied to animated (ugoira) works.
#[derive(Clone, Copy, Debug, PartialEq, Eq, Structural)]
pub struct UgoiraSettings {
    pub max_zip_bytes: u64,
    pub max_frames: u32,
    pub max_pixels_per_frame: u64,
    pub decoded_frame_cache_bytes: u64,
}

pub open spec fn default_ugoira_settings() -> UgoiraSettings {
    UgoiraSettings { max_zip_bytes: 536870912, max_frames: 3000, max_pixels_per_frame: 64000000, decoded_frame_cache_bytes: 536870912 }
}

impl Default for UgoiraSettings {
    fn default() -> (s: Self)
        ensures
            s == default_ugoira_settings(),
    {
        UgoiraSettings {
            max_zip_bytes: 512 * 1024 * 1024,
            max_frames: 3000,
            max_pixels_per_frame: 64000000,
            decoded_frame_cache_bytes: 512 * 1024 * 1024,
        }
    }
}

impl UgoiraSettings {
    pub fn validate(&self) -> (res: Result<(), SettingsError>)
        ensures
            res is Ok <==> (self.max_zip_bytes != 0 && self.max_pixels_per_frame != 0 && self.decoded_frame_cache_bytes != 0),
            res matches Err(e) ==> invalid_field(e, "ugoira.limits"@),
    {
        if self.max_zip_bytes == 0 || self.max_pixels_per_frame == 0 || self.decoded_frame_cache_bytes == 0 {
            Err(SettingsError::InvalidField("ugoira.limits"))
        } else {
            Ok(())
        }
    }
}

/// Pixiv-side preferences.
#[derive(Clone, Copy, Debug, PartialEq, Eq, Structural)]
pub struct PixivSettings {
    pub default_private_bookmark: bool,
}

impl Default for PixivSettings {
    fn default() -> (s: Self)
        ensures
            !s.default_private_bookmark,
    {
        PixivSettings { default_private_bookmark: false }
    }
}

/// Visibility of age-restricted content in the gallery.
#[derive(Clone, Copy, Debug, PartialEq, Eq, Structural)]
pub struct ContentSettings {
    pub overview_allow_nsfw: bool,
    pub mask_non_all_age_thumbnails: bool,
}

impl Default for ContentSettings {
    fn default() -> (s: Self)
        ensures
            !s.overview_allow_nsfw,
            !s.mask_non_all_age_thumbnails,
    {
        ContentSettings { overview_allow_nsfw: false, mask_non_all_age_thumbnails: false }
    }
}

impl ContentSettings {
    /// Masked thumbnails cannot be shown in overview decorations.
    pub fn validate(&self) -> (res: Result<(), SettingsError>)
        ensures
            res is Ok <==> !(self.overview_allow_nsfw && self.mask_non_all_age_thumbnails),
            res matches Err(e) ==> invalid_field(e, "content.nsfw_visibility"@),
    {
        if self.overview_allow_nsfw && self.mask_non_all_age_thumbnails {
            Err(SettingsError::InvalidField("content.nsfw_visibility"))
        } else {
            Ok(())
        }
    }
}


/// The setting groups that can be stored independently.
#[derive(Clone, Copy, Debug, PartialEq, Eq, Structural)]
pub enum SettingGroupKey {
    Security,
    Storage,
    Retry,
    Queue,
    Processing,
    Derivative,
    Ugoira,
    Pixiv,
    Content,
}

pub open spec fn setting_group_name(group: SettingGroupKey) -> Seq<char> {
    match group {
        SettingGroupKey::Security => "security"@,
        SettingGroupKey::Storage => "storage"@,
        SettingGroupKey::Retry => "retry"@,
        SettingGroupKey::Queue => "queue"@,
        SettingGroupKey::Processing => "processing"@,
        SettingGroupKey::Derivative => "derivative"@,
        SettingGroupKey::Ugoira => "ugoira"@,
        SettingGroupKey::Pixiv => "pixiv"@,
        SettingGroupKey::Content => "content"@,
    }
}

impl SettingGroupKey {
    pub fn as_str(self) -> (name: &'static str)
        ensures
            name@ == setting_group_name(self),
    {
        match self {
            SettingGroupKey::Security => "security",
            SettingGroupKey::Storage => "storage",
            SettingGroupKey::Retry => "retry",
            SettingGroupKey::Queue => "queue",
            SettingGroupKey::Processing => "processing",
            SettingGroupKey::Derivative => "derivative",
            SettingGroupKey::Ugoira => "ugoira",
            SettingGroupKey::Pixiv => "pixiv",
            SettingGroupKey::Content => "content",
        }
    }
}

/// The value of one setting group.
#[derive(Clone, Debug)]
pub enum SettingValue {
    Security(SecuritySettings),
    Storage(StorageSettings),
    Retry(RetrySettings),
    Queue(QueueSettings),
    Processing(ProcessingSettings),
    Derivative(DerivativeSettings),
    Ugoira(UgoiraSettings),
    Pixiv(PixivSettings),
    Content(ContentSettings),
}

pub open spec fn spec_value_group(value: SettingValue) -> SettingGroupKey {
    match value {
        SettingValue::Security(_) => SettingGroupKey::Security,
        SettingValue::Storage(_) => SettingGroupKey::Storage,
        SettingValue::Retry(_) => SettingGroupKey::Retry,
        SettingValue::Queue(_) => SettingGroupKey::Queue,
        SettingValue::Processing(_) => SettingGroupKey::Processing,
        SettingValue::Derivative(_) => SettingGroupKey::Derivative,
        SettingValue::Ugoira(_) => SettingGroupKey::Ugoira,
        SettingValue::Pixiv(_) => SettingGroupKey::Pixiv,
        SettingValue::Content(_) => SettingGroupKey::Content,
    }
}

/// The field that validation of a setting value rejects first, if any.
pub open spec fn spec_value_invalid_field(value: SettingValue, avif_available: bool) -> Option<Seq<char>> {
    match value {
        SettingValue::Security(v) => spec_security_invalid_field(v),
        SettingValue::Storage(v) => spec_storage_invalid_field(v),
        SettingValue::Retry(v) => if spec_retry_schedule_valid(v.network_backoff_seconds@) {
            None
        } else {
            Some("retry.network_backoff_seconds"@)
        },
        SettingValue::Queue(_) => None,
        SettingValue::Processing(v) => spec_processing_invalid_field(v),
        SettingValue::Derivative(v) => spec_derivative_invalid_field(v, avif_available),
        SettingValue::Ugoira(v) => if v.max_zip_bytes != 0 && v.max_pixels_per_frame != 0 && v.decoded_frame_cache_bytes != 0 {
            None
        } else {
            Some("ugoira.limits"@)
        },
        SettingValue::Pixiv(_) => None,
        SettingValue::Content(v) => if v.overview_allow_nsfw && v.mask_non_all_age_thumbnails {
            Some("content.nsfw_visibility"@)
        } else {
            None
        },
    }
}

impl SettingValue {
    pub fn group(&self) -> (group: SettingGroupKey)
        ensures
            group == spec_value_group(*self),
    {
        match self {
            SettingValue::Security(_) => SettingGroupKey::Security,
            SettingValue::Storage(_) => SettingGroupKey::Storage,
            SettingValue::Retry(_) => SettingGroupKey::Retry,
            SettingValue::Queue(_) => SettingGroupKey::Queue,
            SettingValue::Processing(_) => SettingGroupKey::Processing,
            SettingValue::Derivative(_) => SettingGroupKey::Derivative,
            SettingValue::Ugoira(_) => SettingGroupKey::Ugoira,
            SettingValue::Pixiv(_) => SettingGroupKey::Pixiv,
            SettingValue::Content(_) => SettingGroupKey::Content,
        }
    }

    pub fn validate(&self, capabilities: &DeploymentCapabilities) -> (res: Result<(), SettingsError>)
        ensures
            res is Ok <==> spec_value_invalid_field(*self, capabilities.avif_derivatives) is None,
            res matches Err(e) ==> invalid_field(e, spec_value_invalid_field(*self, capabilities.avif_derivatives)->0),
    {
        match self {
            SettingValue::Security(v) => v.validate(),
            SettingValue::Storage(v) => v.validate(),
            SettingValue::Retry(v) => v.validate(),
            SettingValue::Queue(v) => v.validate(),
            SettingValue::Processing(v) => v.validate(),
            SettingValue::Derivative(v) => v.validate(capabilities),
            SettingValue::Ugoira(v) => v.validate(),
            SettingValue::Pixiv(_) => Ok(()),
            SettingValue::Content(v) => v.validate(),
        }
    }
}

/// Only the first schema version of the stored envelope is understood.
pub fn check_schema_version(schema_version: u16) -> (res: Result<(), SettingsError>)
    ensures
        res is Ok <==> schema_version == 1,
        res matches Err(e) ==> e == SettingsError::UnsupportedSchemaVersion,
{
    if schema_version != 1 {
        Err(SettingsError::UnsupportedSchemaVersion)
    } else {
        Ok(())
    }
}

/// The settings in force: defaults overridden by every stored group.
#[derive(Clone, Debug)]
pub struct EffectiveSettings {
    pub security: SecuritySettings,
    pub storage: StorageSettings,
    pub retry: RetrySettings,
    pub queue: QueueSettings,
    pub processing: Option<ProcessingSettings>,
    pub derivative: DerivativeSettings,
    pub ugoira: Option<UgoiraSettings>,
    pub pixiv: PixivSettings,
    pub content: ContentSettings,
}

impl Default for EffectiveSettings {
    fn default() -> (s: Self)
        ensures
            s.security == default_security_settings(),
            s.storage.media_root is None,
            s.storage.warning_threshold_bytes == 107374182400,
            s.storage.media_write_stop_threshold_bytes == 34359738368,
            s.storage.trash_retention_days == 30,
            s.retry.network_backoff_seconds@ == seq![60u32, 300, 1200, 3600],
            s.queue.quota_weights == (QueueQuotaWeights { immediate: 4, manual_import: 8, scheduled_collection: 2, background_maintenance: 1 }),
            s.processing == Some(default_processing_settings()),
            s.derivative == default_derivative_settings(),
            s.ugoira == Some(default_ugoira_settings()),
            !s.pixiv.default_private_bookmark,
            !s.content.overview_allow_nsfw,
            !s.content.mask_non_all_age_thumbnails,
    {
        EffectiveSettings {
            security: SecuritySettings::default(),
            storage: StorageSettings::default(),
            retry: RetrySettings::default(),
            queue: QueueSettings::default(),
            processing: Some(ProcessingSettings::default()),
            derivative: DerivativeSettings::default(),
            ugoira: Some(UgoiraSettings::default()),
            pixiv: PixivSettings::default(),
            content: ContentSettings::default(),
        }
    }
}

/// The settings after one stored group has been applied.
pub open spec fn spec_apply(s: EffectiveSettings, value: SettingValue) -> EffectiveSettings {
    match value {
        SettingValue::Security(v) => EffectiveSettings { security: v, ..s },
        SettingValue::Storage(v) => EffectiveSettings { storage: v, ..s },
        SettingValue::Retry(v) => EffectiveSettings { retry: v, ..s },
        SettingValue::Queue(v) => EffectiveSettings { queue: v, ..s },
        SettingValue::Processing(v) => EffectiveSettings { processing: Some(v), ..s },
        SettingValue::Derivative(v) => EffectiveSettings { derivative: v, ..s },
        SettingValue::Ugoira(v) => EffectiveSettings { ugoira: Some(v), ..s },
        SettingValue::Pixiv(v) => EffectiveSettings { pixiv: v, ..s },
        SettingValue::Content(v) => EffectiveSettings { content: v, ..s },
    }
}

impl EffectiveSettings {
    /// Replaces the group that `value` belongs to and keeps every other group.
    pub fn apply(&mut self, value: SettingValue)
        ensures
            *final(self) == spec_apply(*old(self), value),
    {
        match value {
            SettingValue::Security(v) => self.security = v,
            SettingValue::Storage(v) => self.storage = v,
            SettingValue::Retry(v) => self.retry = v,
            SettingValue::Queue(v) => self.queue = v,
            SettingValue::Processing(v) => self.processing = Some(v),
            SettingValue::Derivative(v) => self.derivative = v,
            SettingValue::Ugoira(v) => self.ugoira = Some(v),
            SettingValue::Pixiv(v) => self.pixiv = v,
            SettingValue::Content(v) => self.content = v,
        }
    }
}

/// One requested change of a setting group.
#[derive(Clone, Debug)]
pub struct SettingUpdate {
    pub group: SettingGroupKey,
    pub expected_revision: Option<i64>,
    pub value: SettingValue,
}

/// The error of the update at position `i`, given that every earlier update
/// of the batch was accepted.
pub open spec fn spec_update_error(updates: Seq<SettingUpdate>, i: int, avif_available: bool) -> Option<SettingsError> {
    let u = updates[i];
    if u.group != spec_value_group(u.value) {
        Some(SettingsError::WrongGroup)
    } else if exists|j: int| 0 <= j < i && #[trigger] updates[j].group == u.group {
        Some(SettingsError::DuplicateGroup)
    } else {
        None
    }
}

/// Updates from position `i` on, in order: the first wrong group, repeated
/// group or invalid value decides the outcome.
pub open spec fn spec_batch_from(updates: Seq<SettingUpdate>, i: int, avif_available: bool) -> bool
    decreases updates.len() - i,
{
    if i >= updates.len() || i < 0 {
        true
    } else {
        spec_update_error(updates, i, avif_available) is None
            && spec_value_invalid_field(updates[i].value, avif_available) is None
            && spec_batch_from(updates, i + 1, avif_available)
    }
}

/// Every update before position `k` is accepted and the one at `k` is
/// rejected with `e`.
pub open spec fn spec_batch_fails_first_at(updates: Seq<SettingUpdate>, k: int, avif: bool, e: SettingsError) -> bool {
    &&& 0 <= k < updates.len()
    &&& forall|m: int| 0 <= m < k ==> spec_update_error(updates, m, avif) is None
            && #[trigger] spec_value_invalid_field(updates[m].value, avif) is None
    &&& match spec_update_error(updates, k, avif) {
        Some(expected) => e == expected,
        None => invalid_field(e, spec_value_invalid_field(updates[k].value, avif)->0)
            && spec_value_invalid_field(updates[k].value, avif) is Some,
    }
}

/// Checks a batch of updates before anything is written: it must not be
/// empty, each update must carry a value of its own group, no group may
/// appear twice, and every value must validate.
pub fn check_update_batch(capabilities: &DeploymentCapabilities, updates: &Vec<SettingUpdate>) -> (res: Result<(), SettingsError>)
    ensures
        res is Ok <==> (updates@.len() > 0 && spec_batch_from(updates@, 0, capabilities.avif_derivatives)),
        updates@.len() == 0 ==> res == Err::<(), SettingsError>(SettingsError::EmptyBatch),
        updates@.len() > 0 ==> (res matches Err(e) ==> exists|k: int| spec_batch_fails_first_at(updates@, k, capabilities.avif_derivatives, e)),
{
    if updates.len() == 0 {
        return Err(SettingsError::EmptyBatch);
    }
    let mut i: usize = 0;
    while i < updates.len()
        invariant
            i <= updates@.len(),
            forall|k: int| 0 <= k < i ==> spec_update_error(updates@, k, capabilities.avif_derivatives) is None
                && #[trigger] spec_value_invalid_field(updates@[k].value, capabilities.avif_derivatives) is None,
        decreases updates.len() - i,
    {
        let update = &updates[i];
        if update.group != update.value.group() {
            proof {
                lemma_batch_fails_at(updates@, i as int, capabilities.avif_derivatives);
                assert(spec_batch_fails_first_at(updates@, i as int, capabilities.avif_derivatives, SettingsError::WrongGroup));
            }
            return Err(SettingsError::WrongGroup);
        }
        let mut j: usize = 0;
        while j < i
            invariant
                j <= i,
                i < updates@.len(),
                update == updates@[i as int],
                update.group == spec_value_group(update.value),
                forall|k: int| 0 <= k < i ==> spec_update_error(updates@, k, capabilities.avif_derivatives) is None
                    && #[trigger] spec_value_invalid_field(updates@[k].value, capabilities.avif_derivatives) is None,
                forall|k: int| 0 <= k < j ==> #[trigger] updates@[k].group != update.group,
            decreases i - j,
        {
            if updates[j].group == update.group {
                proof {
                    assert(updates@[j as int].group == updates@[i as int].group);
                    lemma_batch_fails_at(updates@, i as int, capabilities.avif_derivatives);
                    assert(spec_batch_fails_first_at(updates@, i as int, capabilities.avif_derivatives, SettingsError::DuplicateGroup));
                }
                return Err(SettingsError::DuplicateGroup);
            }
            j = j + 1;
        }
        proof {
            assert(!(exists|j: int| 0 <= j < i && #[trigger] updates@[j].group == update.group));
        }
        let checked = update.value.validate(capabilities);
        if checked.is_err() {
            proof {
                lemma_batch_fails_at(updates@, i as int, capabilities.avif_derivatives);
                assert(spec_batch_fails_first_at(updates@, i as int, capabilities.avif_derivatives, checked->Err_0));
            }
            return checked;
        }
        i = i + 1;
    }
    proof {
        lemma_batch_accepted_from(updates@, 0, capabilities.avif_derivatives);
    }
    Ok(())
}

proof fn lemma_batch_fails_at(updates: Seq<SettingUpdate>, i: int, avif: bool)
    requires
        0 <= i < updates.len(),
        !(spec_update_error(updates, i, avif) is None && spec_value_invalid_field(updates[i].value, avif) is None),
    ensures
        forall|k: int| 0 <= k <= i ==> !spec_batch_from(updates, k, avif),
    decreases i,
{
    assert forall|k: int| 0 <= k <= i implies !spec_batch_from(updates, k, avif) by {
        lemma_batch_fails_from(updates, k, i, avif);
    }
}

proof fn lemma_batch_fails_from(updates: Seq<SettingUpdate>, k: int, i: int, avif: bool)
    requires
        0 <= k <= i < updates.len(),
        !(spec_update_error(updates, i, avif) is None && spec_value_invalid_field(updates[i].value, avif) is None),
    ensures
        !spec_batch_from(updates, k, avif),
    decreases i - k,
{
    if k < i {
        lemma_batch_fails_from(updates, k + 1, i, avif);
    }
}

proof fn lemma_batch_accepted_from(updates: Seq<SettingUpdate>, k: int, avif: bool)
    requires
        0 <= k <= updates.len(),
        forall|m: int| 0 <= m < updates.len() ==> spec_update_error(updates, m, avif) is None
            && #[trigger] spec_value_invalid_field(updates[m].value, avif) is None,
    ensures
        spec_batch_from(updates, k, avif),
    decreases updates.len() - k,
{
    if k < updates.len() {
        assert(spec_value_invalid_field(updates[k].value, avif) is None);
        lemma_batch_accepted_from(updates, k + 1, avif);
    }
}

/// An accepted batch names every setting group at most once.
pub proof fn lemma_accepted_batch_has_distinct_groups(updates: Seq<SettingUpdate>, avif: bool, a: int, b: int)
    requires
        spec_batch_from(updates, 0, avif),
        0 <= a < b < updates.len(),
    ensures
        updates[a].group != updates[b].group,
{
    lemma_batch_entry_accepted(updates, 0, b, avif);
    if updates[a].group == updates[b].group {
        assert(updates[a].group == updates[b].group);
        assert(exists|j: int| 0 <= j < b && #[trigger] updates[j].group == updates[b].group);
    }
}

proof fn lemma_batch_entry_accepted(updates: Seq<SettingUpdate>, k: int, m: int, avif: bool)
    requires
        spec_batch_from(updates, k, avif),
        0 <= k <= m < updates.len(),
    ensures
        spec_update_error(updates, m, avif) is None,
        spec_value_invalid_field(updates[m].value, avif) is None,
    decreases m - k,
{
    if k < m {
        lemma_batch_entry_accepted(updates, k + 1, m, avif);
    }
}

/// Every update of an accepted batch names the group of its value and
/// carries a value that validates: storage settings in it keep writes
/// stopping strictly below the warning threshold, with an absolute root if
/// any and a retention of one to 365 days.
pub proof fn lemma_accepted_batch_entries_validate(updates: Seq<SettingUpdate>, avif: bool, k: int)
    requires
        spec_batch_from(updates, 0, avif),
        0 <= k < updates.len(),
    ensures
        updates[k].group == spec_value_group(updates[k].value),
        spec_value_invalid_field(updates[k].value, avif) is None,
        updates[k].value matches SettingValue::Storage(st) ==> st.media_write_stop_threshold_bytes < st.warning_threshold_bytes
            && 1 <= st.trash_retention_days <= 365
            && (st.media_root matches Some(r) ==> r@.len() > 0 && r@[0] == '/'),
{
    lemma_batch_entry_accepted(updates, 0, k, avif);
    match updates[k].value {
        SettingValue::Storage(st) => lemma_storage_validation(st),
        _ => {},
    }
}

} // verus!
