use pixivarchive::auth::{AuthError, argon2_admission, argon2_outcome, hash_password, hash_password_with_salt, verify_password};
use pixivarchive::domain::{DbError, JobErrorClass};
use pixivarchive::executors::{ExecutorOutcome, JobCompletion, import_attempt_outcome, unit_attempt_outcome};
use pixivarchive::following::{FollowingAuthorView, PixivFollowingVisibility, find_author};
use pixivarchive::imports::{ImportJobCompletion, ImportRunStatus};
use pixivarchive::installation::{InstallAction, InstallEvent, InstallPhase, install_step};
use pixivarchive::media::{
    ArtifactCleanup, ArtifactRemoval, MediaKind, PrepareSourceError, SourcePreparation, artifact_cleanup,
    cleaned_count, source_preparation,
};
use pixivarchive::pixiv_works::{PixivWorkProcessingError, ProcessedPixivWork};
use pixivarchive::runtime::{RunLoopAction, RunLoopError, RunLoopEvent, RunLoopState, run_loop_step, start_run_loop};
use pixivarchive::subscriptions::{
    DiscoveryOutcome, FollowingPaging, SubscriptionKind, bookmarks_continue, bookmarks_full_sync, discovery_outcome,
    following_paging, ranking_max_page, reject_fixed_subscription, select_discovery_items, sorted_unique_ids,
};

#[test]
fn run_loop_respects_the_claim_limit_and_shutdown() {
    assert_eq!(start_run_loop(0), Err(RunLoopError::InvalidConcurrency));
    let s = start_run_loop(1).unwrap();
    let (s, action) = run_loop_step(s, RunLoopEvent::PollTick { accepting: true });
    assert_eq!(action, RunLoopAction::SpawnTask);
    let (s, action) = run_loop_step(s, RunLoopEvent::PollTick { accepting: true });
    assert_eq!(action, RunLoopAction::Wait);
    assert_eq!(s.active, 1);
    let (s, action) = run_loop_step(s, RunLoopEvent::Shutdown { requested: true });
    assert_eq!(action, RunLoopAction::StopClaiming);
    let (s, action) = run_loop_step(s, RunLoopEvent::PollTick { accepting: true });
    assert_eq!(action, RunLoopAction::Wait);
    let (_, action) = run_loop_step(s, RunLoopEvent::TaskJoined { ok: true });
    assert_eq!(action, RunLoopAction::Finish);
    let failing = RunLoopState { max_concurrency: 2, active: 1, shutting_down: false };
    assert_eq!(run_loop_step(failing, RunLoopEvent::TaskJoined { ok: false }).1, RunLoopAction::Fail);
}

#[test]
fn install_flow_only_creates_a_missing_key() {
    let (phase, action) = install_step(InstallPhase::PreparingDirectories, InstallEvent::DirectoriesReady);
    assert_eq!(action, InstallAction::LoadKey);
    let (phase, action) = install_step(phase, InstallEvent::KeyMissing);
    assert_eq!(action, InstallAction::CreateKey);
    let (phase, action) = install_step(phase, InstallEvent::KeyFileExists);
    assert_eq!(action, InstallAction::LoadKey);
    let (_, action) = install_step(phase, InstallEvent::KeyLoaded);
    assert_eq!(action, InstallAction::Complete(Ok(())));
}

#[test]
fn processing_sources_by_kind() {
    assert_eq!(source_preparation(MediaKind::SourceImage, None), Ok(SourcePreparation::UseOriginal));
    assert_eq!(source_preparation(MediaKind::UgoiraZip, None), Err(PrepareSourceError::MissingUgoiraMetadata));
    assert_eq!(source_preparation(MediaKind::UgoiraZip, Some("image/webp")), Err(PrepareSourceError::UnsupportedFrame));
    assert_eq!(
        source_preparation(MediaKind::UgoiraZip, Some("image/png")),
        Ok(SourcePreparation::ExtractFirstFrame { extension: "png" })
    );
    assert_eq!(source_preparation(MediaKind::Derivative, None), Err(PrepareSourceError::UnsupportedMediaKind));
}

#[test]
fn artifact_cleanup_keeps_referenced_files() {
    assert_eq!(artifact_cleanup(true), ArtifactCleanup::DropIntent);
    assert_eq!(artifact_cleanup(false), ArtifactCleanup::RemoveFileThenDropIntent);
    assert_eq!(cleaned_count(&vec![ArtifactRemoval::Done, ArtifactRemoval::Failed, ArtifactRemoval::Done]), 2);
}

#[test]
fn import_jobs_report_their_run() {
    let failed: ExecutorOutcome<JobCompletion<()>> =
        import_attempt_outcome(ImportRunStatus::Failed, None, Some(60), Some("gone".to_owned()), 0, 0);
    assert_eq!(
        failed,
        ExecutorOutcome::Failed { error_class: JobErrorClass::Permanent, retry_after_seconds: Some(60), message: Some("gone".to_owned()) }
    );
    let done: ExecutorOutcome<JobCompletion<()>> = import_attempt_outcome(ImportRunStatus::MetadataSaved, None, None, None, 3, 2);
    assert_eq!(
        done,
        ExecutorOutcome::Completed(JobCompletion::Import(ImportJobCompletion {
            status: ImportRunStatus::MetadataSaved,
            discovered_count: 3,
            saved_count: 2,
        }))
    );
    assert_eq!(ExecutorOutcome::<JobCompletion<()>>::completed(), ExecutorOutcome::Completed(JobCompletion::TaskOnly));
}

#[test]
fn subscription_jobs_report_their_unit() {
    let failed = unit_attempt_outcome::<u8>(Some("rate_limit"), None, None).unwrap();
    assert_eq!(
        failed,
        ExecutorOutcome::Failed { error_class: JobErrorClass::RateLimit, retry_after_seconds: None, message: Some("Pixiv 请求频率受限".to_owned()) }
    );
    assert_eq!(unit_attempt_outcome::<u8>(None, None, Some(7)), Ok(ExecutorOutcome::Completed(JobCompletion::Subscription(7))));
    assert_eq!(unit_attempt_outcome::<u8>(None, None, None), Err(JobErrorClass::Server));
}

#[test]
fn subscription_helpers() {
    assert!(reject_fixed_subscription(SubscriptionKind::Ranking).is_ok());
    assert_eq!(
        reject_fixed_subscription(SubscriptionKind::Bookmarks),
        Err(DbError::InvalidValue("the fixed subscription is managed from its dedicated page".to_owned()))
    );
    assert_eq!(sorted_unique_ids(&vec![5, 1, 5, 3, 1]), vec![1, 3, 5]);
    assert_eq!(ranking_max_page(20, 50), 1);
    assert_eq!(ranking_max_page(100, 50), 2);
    assert_eq!(ranking_max_page(101, 50), 3);
    assert_eq!(ranking_max_page(0, 50), 1);
    assert_eq!(following_paging(1, Some(1), Some(2)), FollowingPaging::Stop);
    assert_eq!(following_paging(1, None, Some(2)), FollowingPaging::Next(2));
    assert_eq!(following_paging(2, None, Some(2)), FollowingPaging::Fail);
    assert!(bookmarks_full_sync(false, None, None));
    assert!(!bookmarks_full_sync(false, Some(3600), None));
    assert!(bookmarks_full_sync(false, Some(24 * 3600), Some(-1)));
    assert!(bookmarks_full_sync(false, Some(7200), Some(2)));
    assert_eq!(bookmarks_continue(false, 2, 2, Some(40)), None);
    assert_eq!(bookmarks_continue(true, 2, 2, Some(40)), Some(40));
}

#[test]
fn discovery_pages_deduplicate_filter_and_classify() {
    let (kept, filtered) = select_discovery_items(
        &vec![(1, 10), (2, 20), (1, 10), (3, 10), (2, 20)],
        Some(&std::collections::HashSet::from([10])),
    );
    assert_eq!(kept, vec![1, 3]);
    assert_eq!(filtered, 1);
    let (kept, filtered) = select_discovery_items(&vec![(1, 10), (1, 10)], None);
    assert_eq!((kept, filtered), (vec![1], 0));
    assert_eq!(discovery_outcome(&Ok(ProcessedPixivWork::DownloadQueued { work_id: 1, job_id: 2 }), false), DiscoveryOutcome::Discovered);
    assert_eq!(discovery_outcome(&Ok(ProcessedPixivWork::BlockedByDeletionMarker), false), DiscoveryOutcome::Ignored);
    assert_eq!(discovery_outcome(&Err(PixivWorkProcessingError::Pixiv(JobErrorClass::Permanent)), false), DiscoveryOutcome::Ignored);
    assert_eq!(discovery_outcome(&Err(PixivWorkProcessingError::Pixiv(JobErrorClass::Network)), true), DiscoveryOutcome::RetryLater);
    assert_eq!(
        discovery_outcome(&Err(PixivWorkProcessingError::Pixiv(JobErrorClass::Network)), false),
        DiscoveryOutcome::Abort(JobErrorClass::Network)
    );
}

#[test]
fn authors_are_found_by_id() {
    let author = FollowingAuthorView {
        pixiv_artist_id: 4,
        display_name: "d".to_owned(),
        avatar_url: None,
        visibility: PixivFollowingVisibility::Public,
        enabled: true,
        refreshed_at: 0,
        last_collected_at: None,
    };
    assert_eq!(find_author(&vec![author.clone()], 4), Ok(0));
    assert_eq!(find_author(&vec![author], 5), Err(DbError::NotFound));
}

#[test]
fn passwords_hash_and_verify() {
    let phc = hash_password("correct horse").unwrap();
    assert!(phc.starts_with("$argon2id$v=19$m=19456,t=2,p=1$"));
    let good = verify_password(&phc, "correct horse").unwrap();
    assert!(good.matched);
    assert!(good.replacement_phc.is_none());
    let bad = verify_password(&phc, "wrong").unwrap();
    assert!(!bad.matched);
    assert_eq!(verify_password("not a hash", "x").unwrap_err(), AuthError::InvalidCredentials);
    let other_algorithm = phc.replacen("$argon2id$", "$argon2i$", 1);
    assert_eq!(verify_password(&other_algorithm, "correct horse").unwrap_err(), AuthError::InvalidCredentials);
}

#[test]
fn a_fixed_salt_gives_one_hash_that_verifies() {
    let phc = hash_password_with_salt("correct horse", &[1u8; 16]).unwrap();
    assert!(phc.starts_with("$argon2id$v=19$m=19456,t=2,p=1$AQEBAQEBAQEBAQEBAQEBAQ$"));
    assert_eq!(hash_password_with_salt("correct horse", &[1u8; 16]).unwrap(), phc);
    assert_ne!(hash_password_with_salt("correct horse", &[2u8; 16]).unwrap(), phc);
    assert_ne!(hash_password_with_salt("correct horsf", &[1u8; 16]).unwrap(), phc);
    let good = verify_password(&phc, "correct horse").unwrap();
    assert!(good.matched);
    assert!(good.replacement_phc.is_none());
    assert!(!verify_password(&phc, "correct horsf").unwrap().matched);
}

#[test]
fn a_busy_hasher_asks_to_retry_after_a_second() {
    assert_eq!(argon2_admission(true), Ok(()));
    assert_eq!(argon2_admission(false), Err(AuthError::RateLimited { retry_after_seconds: 1 }));
    assert_eq!(argon2_outcome(Some(Ok::<u8, AuthError>(7))), Ok(7));
    assert_eq!(argon2_outcome(Some(Err::<u8, AuthError>(AuthError::InvalidCredentials))), Err(AuthError::InvalidCredentials));
    assert_eq!(argon2_outcome::<u8>(None), Err(AuthError::Internal));
}
