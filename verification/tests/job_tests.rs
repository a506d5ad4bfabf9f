use pixivarchive::domain::{DbError, JobErrorClass, JobPriority, PixivErrorClass};
use pixivarchive::jobs::{
    FailureTransition, QueueQuotaError, QueueQuotaWeights, RetryDecision, RetryPolicy, RetryPolicyError,
    database_error_class, failure_decision, failure_transition, pixiv_error_class,
};
use pixivarchive::pixiv_works::PixivWorkProcessingError;

#[test]
fn database_runtime_errors_remain_retryable() {
    assert_eq!(database_error_class(&DbError::RevisionConflict), JobErrorClass::Server);
    assert_eq!(database_error_class(&DbError::InvalidValue("bad payload".to_owned())), JobErrorClass::Permanent);
    assert_eq!(database_error_class(&DbError::RateLimited { retry_after_seconds: 30 }), JobErrorClass::RateLimit);
}

#[test]
fn invalid_json_or_interstitial_is_retryable_server_failure() {
    assert_eq!(pixiv_error_class(PixivErrorClass::InvalidJsonOrInterstitial), JobErrorClass::Server);
}

#[test]
fn response_larger_than_the_configured_limit_is_permanent() {
    assert_eq!(pixiv_error_class(PixivErrorClass::ResponseTooLarge), JobErrorClass::Permanent);
}

#[test]
fn temporary_storage_failures_remain_retryable() {
    assert_eq!(PixivWorkProcessingError::Storage(DbError::RevisionConflict).error_class(), JobErrorClass::Server);
}

#[test]
fn invalid_work_data_remains_permanent() {
    assert_eq!(
        PixivWorkProcessingError::Storage(DbError::InvalidValue("bad work".to_owned())).error_class(),
        JobErrorClass::Permanent
    );
}

#[test]
fn retry_policy_walks_the_backoff_schedule_and_stops() {
    let policy = RetryPolicy::new(vec![10, 20, 40]).unwrap();
    assert_eq!(policy.next_attempt(JobErrorClass::Network, 1, None), RetryDecision::RetryAfter(10));
    assert_eq!(policy.next_attempt(JobErrorClass::Server, 3, None), RetryDecision::RetryAfter(40));
    assert_eq!(policy.next_attempt(JobErrorClass::Network, 4, None), RetryDecision::DoNotRetry);
    assert_eq!(policy.next_attempt(JobErrorClass::RateLimit, 2, Some(90)), RetryDecision::RetryAfter(90));
    assert_eq!(policy.next_attempt(JobErrorClass::CredentialInvalid, 1, None), RetryDecision::BlockAccount);
    assert_eq!(policy.next_attempt(JobErrorClass::Permanent, 1, None), RetryDecision::DoNotRetry);
}

#[test]
fn retry_policy_refuses_empty_or_non_positive_schedules() {
    assert_eq!(RetryPolicy::new(vec![]).unwrap_err(), RetryPolicyError::InvalidBackoff);
    assert_eq!(RetryPolicy::new(vec![5, 0]).unwrap_err(), RetryPolicyError::InvalidBackoff);
}

#[test]
fn failure_decision_counts_the_current_failure() {
    let policy = RetryPolicy::new(vec![10, 20]).unwrap();
    assert_eq!(failure_decision(&policy, JobErrorClass::Network, 0, None), RetryDecision::RetryAfter(10));
    assert_eq!(failure_decision(&policy, JobErrorClass::Network, 1, None), RetryDecision::RetryAfter(20));
    assert_eq!(failure_decision(&policy, JobErrorClass::Network, 2, None), RetryDecision::DoNotRetry);
}

#[test]
fn failure_transitions_follow_the_decision() {
    assert_eq!(failure_transition(RetryDecision::RetryAfter(5)), FailureTransition::RetryAfter { delay_seconds: 5 });
    assert_eq!(failure_transition(RetryDecision::BlockAccount), FailureTransition::BlockAccount);
    assert_eq!(failure_transition(RetryDecision::DoNotRetry), FailureTransition::Fail);
}

#[test]
fn quota_rotation_serves_each_class_by_its_weight() {
    let weights = QueueQuotaWeights::new(3, 1, 1, 1).unwrap();
    let mut rotation = weights.rotation();
    let mut immediate = 0;
    let mut manual = 0;
    for _ in 0..12 {
        let selection = rotation.next_selection();
        assert!(selection.fallback);
        match selection.preferred {
            JobPriority::Immediate => immediate += 1,
            JobPriority::ManualImport => manual += 1,
            _ => {}
        }
    }
    assert_eq!(immediate, 6);
    assert_eq!(manual, 2);
}

#[test]
fn quota_weights_must_all_be_positive() {
    assert_eq!(QueueQuotaWeights::new(0, 1, 1, 1).unwrap_err(), QueueQuotaError::ZeroWeight);
    assert_eq!(QueueQuotaWeights::new(1, 1, 1, 0).unwrap_err(), QueueQuotaError::ZeroWeight);
}

#[test]
fn error_class_names_read_back() {
    for class in [
        JobErrorClass::Network,
        JobErrorClass::Server,
        JobErrorClass::RateLimit,
        JobErrorClass::CredentialInvalid,
        JobErrorClass::Permanent,
    ] {
        assert_eq!(JobErrorClass::from_db_value(class.as_str()), Some(class));
    }
    assert_eq!(JobErrorClass::from_db_value("unknown"), None);
}

#[test]
fn default_rotation_starts_with_eight_manual_imports() {
    let mut rotation = pixivarchive::runtime::default_rotation();
    let mut seen = Vec::new();
    for _ in 0..15 {
        seen.push(rotation.next_selection().preferred);
    }
    assert!(seen[..8].iter().all(|p| *p == JobPriority::ManualImport));
    assert!(seen[8..12].iter().all(|p| *p == JobPriority::Immediate));
    assert!(seen[12..14].iter().all(|p| *p == JobPriority::ScheduledCollection));
    assert_eq!(seen[14], JobPriority::BackgroundMaintenance);
    assert_eq!(rotation.next_selection().preferred, JobPriority::ManualImport);
}
