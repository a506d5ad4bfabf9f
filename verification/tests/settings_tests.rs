use pixivarchive::settings::{ContentSettings, FailureLimit, SecuritySettings, SettingsError, StorageSettings};

#[test]
fn content_settings_do_not_allow_masked_thumbnails_in_overview_decorations() {
    assert!(ContentSettings::default().validate().is_ok());
    assert!(ContentSettings { overview_allow_nsfw: true, mask_non_all_age_thumbnails: true }
        .validate()
        .is_err());
}

#[test]
fn security_settings_reject_unrepresentable_and_incoherent_durations() {
    assert!(SecuritySettings {
        session_idle_timeout_seconds: u64::MAX,
        session_absolute_timeout_seconds: u64::MAX,
        ..SecuritySettings::default()
    }
    .validate()
    .is_err());
    assert!(SecuritySettings {
        session_idle_timeout_seconds: 60,
        session_absolute_timeout_seconds: 120,
        last_activity_persist_interval_seconds: 61,
        ..SecuritySettings::default()
    }
    .validate()
    .is_err());
    assert!(FailureLimit { threshold: 1, window_seconds: u64::MAX, cooldown_seconds: 1 }
        .validate("security.test_failures")
        .is_err());
}

#[test]
fn storage_media_root_is_absolute_optional_and_overrides_bootstrap() {
    let mut storage = StorageSettings::default();
    assert_eq!(storage.media_root, None);
    assert_eq!(
        storage.active_media_root("/srv/pixivarchive/media".to_owned()),
        "/srv/pixivarchive/media".to_owned()
    );

    storage.media_root = Some("relative/media".to_owned());
    assert!(storage.validate().is_err());
    storage.media_root = Some("/mnt/archive/pixiv".to_owned());
    assert!(storage.validate().is_ok());
    assert_eq!(
        storage.active_media_root("/srv/pixivarchive/media".to_owned()),
        "/mnt/archive/pixiv".to_owned()
    );
}

#[test]
fn default_security_settings_are_valid() {
    assert!(SecuritySettings::default().validate().is_ok());
}

#[test]
fn failure_limit_names_the_failing_field() {
    let result = FailureLimit::new(0, 60, 60).validate("security.password_failures");
    assert_eq!(result, Err(SettingsError::InvalidField("security.password_failures")));
    assert!(FailureLimit::new(3, 60, 60).validate("security.password_failures").is_ok());
}

#[test]
fn failure_limit_reports_its_window_and_cooldown() {
    let limit = FailureLimit::new(5, 900, 300);
    assert_eq!(limit.window(), 900);
    assert_eq!(limit.cooldown(), 300);
}
