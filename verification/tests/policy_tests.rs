use pixivarchive::auth::{
    AuthError, LoginRequest, RateLimitKind, csrf_decision, login_attempt, login_reservations, map_session_error,
    password_failure_kinds,
};
use pixivarchive::domain::{DbError, JobErrorClass, PixivAccountState, PixivErrorClass};
use pixivarchive::following::{
    ArtistFollowCommandError, DisabledArtistFollowCommandPort, DisabledFollowingAvatarPort, FollowingAvatarError,
    FollowingServiceError,
};
use pixivarchive::imports::{
    ImportAttemptResult, ImportKind, ImportResult, ImportRunStatus, ImportServiceError, ImportStrategy, RunFinish,
    failed_attempt, queue_settings, run_finish,
};
use pixivarchive::jobs::{RetryDecision, RetryPolicy, RetryPolicyError};
use pixivarchive::installation::{InstallationError, MediaPathError, installation_path_error};
use pixivarchive::rules::{RuleServiceError, check_definition_id, import_base_version};
use pixivarchive::runtime::heartbeat_needs_lookup;
use pixivarchive::settings::{
    ContentSettings, DeploymentCapabilities, EffectiveSettings, PixivSettings, SecuritySettings, SettingGroupKey,
    SettingUpdate, SettingValue, SettingsError, check_schema_version, check_update_batch,
};
use pixivarchive::subscriptions::{
    SubscriptionRunStatus, UnitJobDecision, check_bookmark_update, following_error_class, needs_failure_record,
    needs_initial_backfill, unit_job_decision,
};
use pixivarchive::system::{
    MeasureAction, MediaUsageState, StorageCapacity, WorkerHeartbeatState, heartbeat_state, storage_status,
    worker_status,
};
use pixivarchive::trash::trashing_account;

#[test]
fn only_conflicts_send_a_lost_heartbeat_to_a_lookup() {
    assert!(heartbeat_needs_lookup(&DbError::RevisionConflict));
    assert!(heartbeat_needs_lookup(&DbError::LeaseConflict));
    assert!(!heartbeat_needs_lookup(&DbError::NotFound));
    assert!(!heartbeat_needs_lookup(&DbError::Query("timeout".to_owned())));
}

#[test]
fn trash_is_attributed_to_a_usable_account_only() {
    assert_eq!(trashing_account(Some((7, PixivAccountState::Normal))), Some(7));
    assert_eq!(trashing_account(Some((7, PixivAccountState::Restricted))), Some(7));
    assert_eq!(trashing_account(Some((7, PixivAccountState::CredentialInvalid))), None);
    assert_eq!(trashing_account(Some((7, PixivAccountState::Unconfigured))), None);
    assert_eq!(trashing_account(None), None);
}

#[test]
fn media_path_failures_become_installation_failures() {
    assert_eq!(
        installation_path_error(MediaPathError::UnsafeEntry("/srv/media/link".to_owned())),
        InstallationError::InvalidEntry("/srv/media/link".to_owned())
    );
    assert_eq!(
        installation_path_error(MediaPathError::Io { path: "/srv".to_owned(), message: "denied".to_owned() }),
        InstallationError::Io { path: "/srv".to_owned(), message: "denied".to_owned() }
    );
    assert_eq!(
        installation_path_error(MediaPathError::Worker("/srv/media".to_owned())),
        InstallationError::Io {
            path: "/srv/media".to_owned(),
            message: "media path worker stopped unexpectedly".to_owned()
        }
    );
}

#[test]
fn csrf_requires_matching_tokens_and_a_valid_digest() {
    assert_eq!(csrf_decision(true, Some(true)), Ok(()));
    assert_eq!(csrf_decision(false, Some(true)), Err(AuthError::Forbidden));
    assert_eq!(csrf_decision(true, Some(false)), Err(AuthError::Forbidden));
    assert_eq!(csrf_decision(true, None), Err(AuthError::Internal));
}

#[test]
fn a_missing_session_is_invalid_and_other_storage_failures_internal() {
    assert_eq!(map_session_error(DbError::NotFound), AuthError::InvalidSession);
    assert_eq!(map_session_error(DbError::LeaseConflict), AuthError::Internal);
}

#[test]
fn login_reserves_entry_password_and_shared_counters() {
    let settings = SecuritySettings::default();
    let reservations = login_reservations("203.0.113.0/24", &settings, 1_700_000_000_000).unwrap();
    assert!(reservations.iter().all(|r| r.id >> 80 == 1_700_000_000_000));
    assert!(reservations.iter().all(|r| (r.id >> 76) & 0xF == 7 && (r.id >> 62) & 0b11 == 0b10));
    assert_ne!(reservations[0].id, reservations[1].id);
    assert_eq!(reservations.len(), 3);
    assert_eq!(reservations[0].kind, RateLimitKind::Entry);
    assert_eq!(reservations[0].bucket_key, "entry:203.0.113.0/24");
    assert_eq!(reservations[0].threshold, 20);
    assert_eq!(reservations[1].kind, RateLimitKind::Password);
    assert_eq!(reservations[1].bucket_key, "password:admin");
    assert_eq!((reservations[1].threshold, reservations[1].window, reservations[1].cooldown), (5, 600, 900));
    assert_eq!(reservations[2].kind, RateLimitKind::Shared);
    assert_eq!(reservations[2].bucket_key, "shared:admin");
    assert_eq!(reservations[2].threshold, 12);
    assert_eq!(password_failure_kinds(), [RateLimitKind::Password, RateLimitKind::Shared, RateLimitKind::Entry]);
}

#[test]
fn a_login_attempt_records_its_source_and_reason() {
    let request = LoginRequest::new("secret".to_owned(), "198.51.100.0/24".to_owned());
    let attempt = login_attempt(Some(9), &request, false, Some("invalid_password"));
    assert_eq!(attempt.administrator_id, Some(9));
    assert_eq!(attempt.account_bucket, "admin");
    assert_eq!(attempt.entry_bucket, "198.51.100.0/24");
    assert_eq!(attempt.source_bucket, "198.51.100.0/24");
    assert!(!attempt.succeeded);
    assert_eq!(attempt.failure_reason.as_deref(), Some("invalid_password"));
    let attempt = login_attempt(Some(9), &request, true, None);
    assert!(attempt.succeeded);
    assert_eq!(attempt.failure_reason, None);
}

#[test]
fn subscription_units_follow_their_stored_state() {
    assert!(needs_failure_record(SubscriptionRunStatus::Running));
    assert!(!needs_failure_record(SubscriptionRunStatus::Failed));
    assert_eq!(unit_job_decision(SubscriptionRunStatus::Succeeded), UnitJobDecision::Complete);
    assert_eq!(unit_job_decision(SubscriptionRunStatus::Failed), UnitJobDecision::RepeatFailure);
    assert_eq!(unit_job_decision(SubscriptionRunStatus::Queued), UnitJobDecision::Execute);
    assert_eq!(
        following_error_class(&FollowingServiceError::Pixiv(PixivErrorClass::RateLimited)),
        JobErrorClass::RateLimit
    );
    assert_eq!(
        following_error_class(&FollowingServiceError::Storage(DbError::InvalidValue("x".to_owned()))),
        JobErrorClass::Permanent
    );
}

#[test]
fn bookmark_synchronization_accepts_only_the_offered_intervals() {
    assert_eq!(
        check_bookmark_update(7, false),
        Err(DbError::InvalidValue("unsupported bookmark synchronization interval".to_owned()))
    );
    assert_eq!(check_bookmark_update(60, true), Err(DbError::RevisionConflict));
    assert_eq!(check_bookmark_update(60, false), Ok(()));
    assert!(needs_initial_backfill(true, false, false));
    assert!(!needs_initial_backfill(true, true, false));
    assert!(!needs_initial_backfill(true, false, true));
    assert!(!needs_initial_backfill(false, false, false));
}

#[test]
fn rule_routes_and_import_base_versions() {
    assert_eq!(check_definition_id(3, 3), Ok(()));
    assert_eq!(
        check_definition_id(3, 4),
        Err(RuleServiceError::InvalidRequest("rule definition ID does not match route".to_owned()))
    );
    assert_eq!(import_base_version(Some(Some(2)), Some(5)), Some(2));
    assert_eq!(import_base_version(Some(None), Some(5)), None);
    assert_eq!(import_base_version(None, Some(5)), Some(5));
}

#[test]
fn worker_health_follows_the_last_heartbeat() {
    assert_eq!(heartbeat_state(None, 1_000), WorkerHeartbeatState::Missing);
    assert_eq!(heartbeat_state(Some(910), 1_000), WorkerHeartbeatState::Online);
    assert_eq!(heartbeat_state(Some(909), 1_000), WorkerHeartbeatState::Stale);
    let online = worker_status(WorkerHeartbeatState::Online);
    assert_eq!(online.status, "healthy");
    assert_eq!(online.message, None);
    let stale = worker_status(WorkerHeartbeatState::Stale);
    assert_eq!(stale.status, "unavailable");
    assert_eq!(stale.message.as_deref(), Some("工作进程已断开"));
    assert_eq!(worker_status(WorkerHeartbeatState::Missing).message.as_deref(), Some("工作进程尚未连接"));
}

#[test]
fn storage_status_stops_writes_at_the_threshold() {
    let capacity = StorageCapacity { total_bytes: 1_000, available_bytes: 100 };
    let status = storage_status("/srv/media".to_owned(), capacity, 500, 100);
    assert_eq!(status.active_media_root, "/srv/media");
    assert_eq!((status.total_bytes, status.available_bytes), (1_000, 100));
    assert!(status.write_stopped);
    let status = storage_status("/srv/media".to_owned(), capacity, 500, 99);
    assert!(!status.write_stopped);
}

#[test]
fn media_usage_is_measured_by_one_scan_and_then_cached() {
    let mut usage = MediaUsageState::new();
    assert_eq!(usage.measure(0), MeasureAction::StartScanAndWait);
    assert_eq!(usage.measure(10), MeasureAction::Wait);
    assert!(usage.waiters_have_a_scan());
    assert_eq!(usage.finish_scan(Some(4_096), 20), 2);
    assert_eq!(usage.measure(14_000), MeasureAction::Cached(4_096));
    assert_eq!(usage.measure(15_020), MeasureAction::StartScanAndWait);
    assert_eq!(usage.finish_scan(None, 15_030), 1);
    assert_eq!(usage.measure(15_031), MeasureAction::StartScanAndWait);
}

#[test]
fn stored_settings_use_schema_version_one() {
    assert_eq!(check_schema_version(1), Ok(()));
    assert_eq!(check_schema_version(2), Err(SettingsError::UnsupportedSchemaVersion));
}

#[test]
fn applying_a_value_replaces_only_its_group() {
    let mut settings = EffectiveSettings::default();
    settings.apply(SettingValue::Pixiv(PixivSettings { default_private_bookmark: true }));
    assert!(settings.pixiv.default_private_bookmark);
    assert!(!settings.content.overview_allow_nsfw);
    assert_eq!(settings.security, SecuritySettings::default());
}

#[test]
fn a_settings_batch_is_checked_before_anything_is_written() {
    let capabilities = DeploymentCapabilities { avif_derivatives: false };
    assert_eq!(check_update_batch(&capabilities, &Vec::new()), Err(SettingsError::EmptyBatch));
    let pixiv = SettingUpdate {
        group: SettingGroupKey::Pixiv,
        expected_revision: Some(1),
        value: SettingValue::Pixiv(PixivSettings::default()),
    };
    assert_eq!(check_update_batch(&capabilities, &vec![pixiv.clone()]), Ok(()));
    let wrong = SettingUpdate {
        group: SettingGroupKey::Content,
        expected_revision: None,
        value: SettingValue::Pixiv(PixivSettings::default()),
    };
    assert_eq!(check_update_batch(&capabilities, &vec![wrong]), Err(SettingsError::WrongGroup));
    assert_eq!(
        check_update_batch(&capabilities, &vec![pixiv.clone(), pixiv.clone()]),
        Err(SettingsError::DuplicateGroup)
    );
    let masked = SettingUpdate {
        group: SettingGroupKey::Content,
        expected_revision: None,
        value: SettingValue::Content(ContentSettings { overview_allow_nsfw: true, mask_non_all_age_thumbnails: true }),
    };
    assert!(matches!(
        check_update_batch(&capabilities, &vec![pixiv, masked]),
        Err(SettingsError::InvalidField(_))
    ));
}

#[test]
fn queued_imports_keep_their_strategy() {
    assert_eq!(queue_settings(ImportStrategy::Default), (false, None));
    assert_eq!(queue_settings(ImportStrategy::Forced), (true, None));
    assert_eq!(queue_settings(ImportStrategy::Rule { rule_id: 11 }), (false, Some(11)));
}

#[test]
fn an_import_run_finishes_with_its_result_or_its_failure_class() {
    let result = ImportResult {
        id: 5,
        kind: ImportKind::Artist,
        status: ImportRunStatus::DownloadQueued,
        discovered_count: 4,
        saved_count: 3,
    };
    assert_eq!(
        run_finish(&Ok(result)),
        RunFinish { status: ImportRunStatus::DownloadQueued, discovered_count: 4, saved_count: 3, error_class: None }
    );
    assert_eq!(
        run_finish(&Err(ImportServiceError::Pixiv(JobErrorClass::RateLimit))),
        RunFinish {
            status: ImportRunStatus::Failed,
            discovered_count: 0,
            saved_count: 0,
            error_class: Some(JobErrorClass::RateLimit)
        }
    );
    assert_eq!(
        failed_attempt(5, ImportKind::Work, JobErrorClass::Network),
        ImportAttemptResult {
            result: ImportResult {
                id: 5,
                kind: ImportKind::Work,
                status: ImportRunStatus::Failed,
                discovered_count: 0,
                saved_count: 0
            },
            error_class: Some(JobErrorClass::Network),
        }
    );
}

#[test]
fn disabled_follow_ports_refuse_every_request() {
    assert_eq!(
        DisabledArtistFollowCommandPort.set_followed(1, 2, true),
        Err(ArtistFollowCommandError::Unavailable)
    );
    assert_eq!(
        DisabledFollowingAvatarPort.fetch("https://i.pximg.net/user-profile/img/a.png".to_owned()),
        Err(FollowingAvatarError::Unavailable)
    );
}

#[test]
fn session_durations_are_read_in_seconds() {
    let settings = SecuritySettings::default();
    assert_eq!(settings.session_idle_timeout(), 2_592_000);
    assert_eq!(settings.session_absolute_timeout(), 15_552_000);
    assert_eq!(settings.last_activity_persist_interval(), 60);
}

#[test]
fn the_retry_policy_follows_the_stored_backoff() {
    let mut settings = EffectiveSettings::default();
    let policy = RetryPolicy::from_effective_settings(&settings).unwrap();
    assert_eq!(policy.next_attempt(JobErrorClass::Network, 1, None), RetryDecision::RetryAfter(60));
    settings.retry.network_backoff_seconds = vec![5, 0];
    assert_eq!(RetryPolicy::from_effective_settings(&settings).err(), Some(RetryPolicyError::InvalidBackoff));
    settings.retry.network_backoff_seconds = vec![5, 10];
    let policy = RetryPolicy::from_effective_settings(&settings).unwrap();
    assert_eq!(policy.next_attempt(JobErrorClass::Server, 2, None), RetryDecision::RetryAfter(10));
    assert_eq!(policy.next_attempt(JobErrorClass::Server, 3, None), RetryDecision::DoNotRetry);
}
