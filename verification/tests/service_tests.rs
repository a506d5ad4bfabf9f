use pixivarchive::auth::{
    AuthConfig, AuthError, LoginAction, LoginEvent, LoginFailureReason, LoginPhase, LoginRequest, PasswordSync,
    password_failure_kinds,
    PasswordSyncAction, PasswordSyncEvent, PasswordSyncPhase, csrf_tokens_match, login_step, new_token,
    password_sync_step,
};
use pixivarchive::bookmarks::{
    BookmarkWritebackError, BookmarkWritebackOperation, BookmarkWritebackResult, BookmarkWritebackStatus, DisabledBookmarkCommandPort,
    WritebackAction, WritebackEvent, WritebackGate, WritebackOutcome, WritebackPhase, start_writeback,
    writeback_gate, writeback_step,
};
use pixivarchive::domain::{DbError, JobErrorClass, PixivErrorClass};
use pixivarchive::events::{OpenedEventStream, StreamEvent, WakeResult, replay_cursor, wake_handling};
use pixivarchive::following::{
    ArtistFollowCommandError, ArtistFollowStateView, DisabledArtistFollowCommandPort, FollowAction, FollowEvent,
    FollowPhase, FollowingAuthorSnapshot, FollowingServiceError, PixivFollowingVisibility, RefreshAction, RefreshEvent, RefreshPhase,
    first_following_request, follow_step, merge_following_authors, refresh_step,
};
use pixivarchive::imports::{
    CandidateAction, ImportKind, ImportRunStatus, ImportStrategy, StoredRunDecision, artist_import,
    import_job_decision, stored_strategy, unique_work_ids, work_import,
};
use pixivarchive::pixiv_works::{
    DeletionMarkerPolicy, ProcessedPixivWork, RuleAction, WorkDataProblem, WorkDetailShape, WorkPagesShape,
    WorkProcessingAction, WorkProcessingEvent, WorkProcessingPhase, WorkRequestFlags, normalize_image_extension,
    orientation, page_extension, start_work, validate_pages, work_data_error, work_step,
};
use pixivarchive::rules::{RulePreviewError, RuleServiceError, check_publish_draft, preview_precheck, rule_name};
use pixivarchive::subscriptions::{
    ExecutedUnit, SubscriptionExecutionResult, SubscriptionRunStatus, aggregate_units, check_following_interval,
    cursor_page, page_size, ranking_max_rank, unit_attempt_result,
};
use pixivarchive::system::{MaintenanceOperation, MediaRootProbe, media_status};

fn flags(policy: DeletionMarkerPolicy, forced: bool, rules: bool) -> WorkRequestFlags {
    WorkRequestFlags { deletion_marker_policy: policy, forced, has_rule_document: rules, for_job: false }
}

#[test]
fn a_blocking_deletion_marker_stops_processing_before_pixiv() {
    let f = flags(DeletionMarkerPolicy::Block, false, false);
    let (phase, action) = start_work(f);
    assert_eq!(action, WorkProcessingAction::CheckDeletionMarker);
    let (_, action) = work_step(f, phase, WorkProcessingEvent::DeletionMarker { exists: true });
    assert_eq!(action, WorkProcessingAction::Complete(Ok(ProcessedPixivWork::BlockedByDeletionMarker)));
    let (_, action) = start_work(flags(DeletionMarkerPolicy::RemoveOnSave, false, false));
    assert_eq!(action, WorkProcessingAction::FetchDetail);
}

#[test]
fn a_work_without_rules_is_downloaded_after_it_is_saved() {
    let f = flags(DeletionMarkerPolicy::RemoveOnSave, false, false);
    let detail = WorkDetailShape { work_id: 7, page_count: 2, ugoira: false };
    let (phase, action) = work_step(f, WorkProcessingPhase::FetchingDetail, WorkProcessingEvent::DetailFetched(detail));
    assert_eq!(action, WorkProcessingAction::FetchPages);
    let pages = WorkPagesShape { work_id: 7, page_indices: vec![0, 1] };
    let (phase, action) = work_step(f, phase, WorkProcessingEvent::PagesFetched(pages));
    assert_eq!(action, WorkProcessingAction::SaveMetadata { for_job: false, remove_deletion_marker: true });
    let (phase, action) = work_step(f, phase, WorkProcessingEvent::Saved { work_id: 11 });
    assert_eq!(action, WorkProcessingAction::QueueDownload { work_id: 11, for_job: false });
    let (_, action) = work_step(f, phase, WorkProcessingEvent::DownloadQueued { job_id: 12 });
    assert_eq!(action, WorkProcessingAction::Complete(Ok(ProcessedPixivWork::DownloadQueued { work_id: 11, job_id: 12 })));
}

#[test]
fn ignored_and_malformed_works_are_not_saved() {
    let f = flags(DeletionMarkerPolicy::Block, false, true);
    let detail = WorkDetailShape { work_id: 7, page_count: 1, ugoira: true };
    let (_, action) = work_step(f, WorkProcessingPhase::Evaluating { detail, pages_loaded: false }, WorkProcessingEvent::RuleDecided(RuleAction::Ignore));
    assert_eq!(action, WorkProcessingAction::Complete(Ok(ProcessedPixivWork::Ignored)));
    let (_, action) = work_step(f, WorkProcessingPhase::FetchingDetail,
        WorkProcessingEvent::DetailFetched(WorkDetailShape { work_id: 7, page_count: 0, ugoira: false }));
    assert_eq!(action, WorkProcessingAction::RejectWorkData(WorkDataProblem::NoPages));
    let (_, action) = work_step(f, WorkProcessingPhase::FetchingPages { detail, action: RuleAction::SaveMetadata },
        WorkProcessingEvent::PagesFetched(WorkPagesShape { work_id: 7, page_indices: vec![1] }));
    assert_eq!(action, WorkProcessingAction::RejectWorkData(WorkDataProblem::PagesMismatch));
    assert_eq!(
        work_data_error(WorkDataProblem::NoPages).error_class(),
        JobErrorClass::Permanent
    );
}

#[test]
fn hidden_works_are_marked_missing_before_failing() {
    let f = flags(DeletionMarkerPolicy::Block, false, false);
    let (_, action) = work_step(f, WorkProcessingPhase::FetchingDetail, WorkProcessingEvent::DetailFailed(PixivErrorClass::HiddenOrNotFound));
    assert_eq!(action, WorkProcessingAction::MarkSourceState(pixivarchive::pixiv_works::WorkSourceState::Missing));
}

#[test]
fn pages_must_match_the_detail() {
    let detail = WorkDetailShape { work_id: 3, page_count: 2, ugoira: false };
    assert!(validate_pages(&detail, &WorkPagesShape { work_id: 3, page_indices: vec![0, 1] }).is_ok());
    assert!(validate_pages(&detail, &WorkPagesShape { work_id: 4, page_indices: vec![0, 1] }).is_err());
    assert!(validate_pages(&detail, &WorkPagesShape { work_id: 3, page_indices: vec![1, 0] }).is_err());
}

#[test]
fn page_metadata_extensions_and_orientation() {
    assert_eq!(normalize_image_extension("JPEG"), "jpg");
    assert_eq!(normalize_image_extension("Png"), "png");
    assert_eq!(page_extension(None, Some("12345_p0.JPEG")), Some("jpg".to_owned()));
    assert_eq!(page_extension(Some(pixivarchive::pixiv_works::PixivImageFormat::Gif), Some("x.png")), Some("gif".to_owned()));
    assert_eq!(page_extension(None, Some("noextension")), None);
    assert_eq!(orientation(1200, 800), "landscape");
    assert_eq!(orientation(800, 1200), "portrait");
    assert_eq!(orientation(10, 10), "square");
}

#[test]
fn writeback_records_failures_and_treats_a_gone_bookmark_as_removed() {
    let (phase, action) = start_writeback(BookmarkWritebackOperation::Remove);
    assert_eq!(action, WritebackAction::FindActiveBookmark);
    let (phase, action) = writeback_step(phase, WritebackEvent::LocalBookmark(Some(44)));
    assert_eq!(action, WritebackAction::DeleteBookmark { bookmark_id: 44 });
    let (phase, action) = writeback_step(phase, WritebackEvent::PixivFailed(PixivErrorClass::HiddenOrNotFound));
    assert_eq!(action, WritebackAction::MarkRemoved);
    let (phase, _) = writeback_step(phase, WritebackEvent::LocalMarked);
    let (_, action) = writeback_step(phase, WritebackEvent::Recorded);
    assert_eq!(action, WritebackAction::Complete(Ok(WritebackOutcome {
        status: BookmarkWritebackStatus::Succeeded,
        bookmark_id: None,
        error: None,
    })));
    let (_, action) = writeback_step(WritebackPhase::Adding, WritebackEvent::PixivFailed(PixivErrorClass::RateLimited));
    let failed = WritebackOutcome { status: BookmarkWritebackStatus::Failed, bookmark_id: None, error: Some(PixivErrorClass::RateLimited) };
    assert_eq!(action, WritebackAction::Record(failed));
    let result = failed.into_result();
    assert_eq!(result.error_class, Some("rate_limited".to_owned()));
    assert_eq!(BookmarkWritebackStatus::Failed.as_str(), "failed");
}

#[test]
fn writeback_is_gated_by_the_account() {
    assert_eq!(writeback_gate(false, 1, 2), WritebackGate::RecordDisabled);
    assert_eq!(writeback_gate(true, 1, 2), WritebackGate::Reject);
    assert_eq!(writeback_gate(true, 2, 2), WritebackGate::Proceed);
    let disabled = DisabledBookmarkCommandPort.add().unwrap();
    assert_eq!(disabled, BookmarkWritebackResult::disabled());
    assert_eq!(BookmarkWritebackOperation::Remove.as_str(), "remove");
}

fn snapshot(id: i64, name: &str, visibility: PixivFollowingVisibility) -> FollowingAuthorSnapshot {
    FollowingAuthorSnapshot { pixiv_artist_id: id, display_name: name.to_owned(), avatar_url: None, visibility }
}

#[test]
fn merged_following_lists_keep_each_artist_once_in_id_order() {
    let merged = merge_following_authors(vec![
        snapshot(30, "c", PixivFollowingVisibility::Public),
        snapshot(10, "a", PixivFollowingVisibility::Public),
        snapshot(20, "b", PixivFollowingVisibility::Public),
        snapshot(10, "a2", PixivFollowingVisibility::Private),
    ]);
    assert_eq!(merged, vec![
        snapshot(10, "a2", PixivFollowingVisibility::Private),
        snapshot(20, "b", PixivFollowingVisibility::Public),
        snapshot(30, "c", PixivFollowingVisibility::Public),
    ]);
}

#[test]
fn refresh_reads_public_then_private_pages_before_syncing() {
    let (phase, action) = refresh_step(5, RefreshPhase::LoadingAccount, RefreshEvent::AccountLoaded { pixiv_user_id: 5 });
    assert_eq!(action, RefreshAction::FetchFirstPage(PixivFollowingVisibility::Public));
    let (phase, action) = refresh_step(5, phase, RefreshEvent::PageRead { more: true });
    assert_eq!(action, RefreshAction::FetchNextPage);
    let (phase, action) = refresh_step(5, phase, RefreshEvent::PageRead { more: false });
    assert_eq!(action, RefreshAction::FetchFirstPage(PixivFollowingVisibility::Private));
    let (_, action) = refresh_step(5, phase, RefreshEvent::PageRead { more: false });
    assert_eq!(action, RefreshAction::SyncAuthors);
    let (_, action) = refresh_step(5, RefreshPhase::LoadingAccount, RefreshEvent::AccountLoaded { pixiv_user_id: 6 });
    assert_eq!(action, RefreshAction::RejectIdentity);
    let request = first_following_request(5, PixivFollowingVisibility::Private);
    assert_eq!((request.offset, request.limit, request.language.as_str()), (0, 100, "zh"));
}

#[test]
fn following_changes_are_confirmed_before_the_local_list() {
    let view = ArtistFollowStateView { pixiv_artist_id: 9, followed: false };
    let (phase, action) = follow_step(true, FollowPhase::ReadingState, FollowEvent::StateRead(view));
    assert_eq!(action, FollowAction::Change { follow: true });
    let (phase, _) = follow_step(true, phase, FollowEvent::Changed);
    let (_, action) = follow_step(true, phase, FollowEvent::StateRead(view));
    assert_eq!(action, FollowAction::Complete(Err(ArtistFollowCommandError::StateMismatch)));
    assert_eq!(DisabledArtistFollowCommandPort.status(1, 9), Err(ArtistFollowCommandError::Unavailable));
}

#[test]
fn work_imports_count_and_record_candidates() {
    let (result, candidate) = work_import(1, ProcessedPixivWork::MetadataSaved { work_id: 2 });
    assert_eq!((result.status, result.discovered_count, result.saved_count), (ImportRunStatus::MetadataSaved, 1, 1));
    assert_eq!(candidate, Some(CandidateAction::MetadataOnly));
    let (result, candidate) = work_import(1, ProcessedPixivWork::Ignored);
    assert_eq!((result.status, result.saved_count), (ImportRunStatus::Ignored, 0));
    assert_eq!(candidate, None);
    assert_eq!(CandidateAction::Blocked.as_str(), "blocked");
}

#[test]
fn artist_imports_count_distinct_works() {
    assert_eq!(unique_work_ids(&vec![5, 3, 5, 1, 3]), vec![5, 3, 1]);
    let result = artist_import(8, &vec![ImportRunStatus::Ignored, ImportRunStatus::DownloadQueued, ImportRunStatus::BlockedByDeletionMarker]);
    assert_eq!((result.kind, result.status, result.discovered_count, result.saved_count), (ImportKind::Artist, ImportRunStatus::MetadataSaved, 3, 1));
    let none = artist_import(8, &vec![ImportRunStatus::Ignored]);
    assert_eq!(none.status, ImportRunStatus::Ignored);
    assert_eq!(stored_strategy(false, Some(4)), ImportStrategy::Rule { rule_id: 4 });
    assert_eq!(stored_strategy(true, Some(4)), ImportStrategy::Forced);
    assert_eq!(import_job_decision(ImportRunStatus::Cancelled), StoredRunDecision::Complete);
    assert_eq!(import_job_decision(ImportRunStatus::Failed), StoredRunDecision::RepeatFailure);
    assert_eq!(import_job_decision(ImportRunStatus::Queued), StoredRunDecision::Execute);
}

#[test]
fn subscription_parameters_and_unit_results() {
    assert!(check_following_interval(60).is_ok());
    assert!(check_following_interval(45).is_err());
    assert_eq!(ranking_max_rank(None), Ok(20));
    assert_eq!(ranking_max_rank(Some(5000)), Ok(5000));
    assert_eq!(ranking_max_rank(Some(0)), Err(JobErrorClass::Permanent));
    assert_eq!(cursor_page(false, None, 1), Ok(1));
    assert_eq!(cursor_page(true, None, 1), Err(JobErrorClass::Permanent));
    assert_eq!(page_size(Some(0), 50), 50);
    assert_eq!(page_size(Some(30), 50), 30);
    let failed = unit_attempt_result(Err(JobErrorClass::RateLimit));
    assert_eq!(failed.error_class, Some("rate_limit".to_owned()));
    assert_eq!(failed.error_message, Some("Pixiv 请求频率受限".to_owned()));
    let ok = unit_attempt_result(Ok(ExecutedUnit { discovered_count: 4, ignored_count: 1 }));
    let total = aggregate_units(&vec![ok.clone(), failed.clone(), unit_attempt_result(Err(JobErrorClass::Network)), ok]);
    assert_eq!(total, SubscriptionExecutionResult {
        status: SubscriptionRunStatus::Failed,
        discovered_count: 8,
        ignored_count: 2,
        error_class: Some("rate_limit".to_owned()),
        error_message: Some("Pixiv 请求频率受限".to_owned()),
    });
}

#[test]
fn event_streams_resume_and_track_the_cursor() {
    assert_eq!(replay_cursor(Some(9), Some(12), Some(3)), 9);
    assert_eq!(replay_cursor(None, Some(12), Some(3)), 12);
    assert_eq!(replay_cursor(None, None, Some(3)), 3);
    assert_eq!(replay_cursor(None, None, None), 0);
    let mut stream = OpenedEventStream::open(vec![StreamEvent::AppEvent { id: 4, event: "a" }], Some(4), Some(4), Some(3), false);
    assert_eq!(stream.cursor, 4);
    stream.extend(vec![StreamEvent::AppEvent { id: 5, event: "b" }]);
    assert_eq!(stream.next_pending(), Some(StreamEvent::AppEvent { id: 4, event: "a" }));
    assert_eq!(stream.next_pending(), Some(StreamEvent::AppEvent { id: 5, event: "b" }));
    assert_eq!(stream.cursor, 5);
    assert_eq!(stream.next_pending(), None);
    let mut refresh = OpenedEventStream::<&str>::open(vec![], None, Some(20), Some(1), true);
    assert_eq!(refresh.next_pending(), Some(StreamEvent::SnapshotRefresh { latest_event_id: 20 }));
    assert!(wake_handling(WakeResult::Failed).sleep_first);
    assert!(wake_handling(WakeResult::Closed).drop_wake_source);
}

#[test]
fn rule_checks() {
    assert_eq!(rule_name("  Favourites "), "Favourites");
    assert_eq!(check_publish_draft(None, None, 1), Err(RuleServiceError::RevisionConflict));
    assert_eq!(check_publish_draft(Some((Some(2), 5)), Some(2), 5), Ok(()));
    assert_eq!(check_publish_draft(Some((Some(2), 5)), Some(3), 5), Err(RuleServiceError::RevisionConflict));
    let e: RuleServiceError = DbError::InvalidValue("bad".to_owned()).into();
    assert_eq!(e, RuleServiceError::InvalidRequest("bad".to_owned()));
    assert_eq!(RulePreviewError::from_pixiv(PixivErrorClass::CsrfFailed), RulePreviewError::CredentialInvalid);
    assert_eq!(preview_precheck(0, None), Err(RulePreviewError::InvalidPixivWorkId));
    assert_eq!(preview_precheck(1, None), Err(RulePreviewError::AccountNotConfigured));
}

#[test]
fn login_answers_rate_limits_and_wrong_passwords() {
    let (phase, action) = login_step(LoginPhase::Reserving, LoginEvent::ReservationRateLimited { retry_after_seconds: 30 });
    assert_eq!(action, LoginAction::RecordRateLimitedAttempt { reason: LoginFailureReason::RateLimited });
    assert_eq!(LoginFailureReason::RateLimited.as_str(), "rate_limited");
    let (_, action) = login_step(phase, LoginEvent::AttemptRecorded);
    assert_eq!(action, LoginAction::Complete(Err(AuthError::RateLimited { retry_after_seconds: 30 })));
    let (phase, action) = login_step(LoginPhase::Verifying, LoginEvent::PasswordMismatched);
    assert_eq!(
        action,
        LoginAction::RecordPasswordFailure { kinds: password_failure_kinds(), reason: LoginFailureReason::InvalidPassword }
    );
    assert_eq!(LoginFailureReason::InvalidPassword.as_str(), "invalid_password");
    let (_, action) = login_step(phase, LoginEvent::FailureRecorded);
    assert_eq!(action, LoginAction::Complete(Err(AuthError::InvalidCredentials)));
    assert!(AuthError::RateLimited { retry_after_seconds: 1 }.is_rate_limited());
    assert!(AuthError::InvalidCredentials.is_invalid_credentials());
}

#[test]
fn password_sync_keeps_a_matching_hash() {
    let (_, action) = password_sync_step(PasswordSyncPhase::Verifying, PasswordSyncEvent::Verified { matched: true });
    assert_eq!(action, PasswordSyncAction::Complete(Ok(PasswordSync::Unchanged)));
    let (_, action) = password_sync_step(PasswordSyncPhase::LookingUp, PasswordSyncEvent::AdministratorMissing);
    assert_eq!(action, PasswordSyncAction::HashPassword);
}

#[test]
fn auth_config_and_tokens() {
    assert!(AuthConfig::new(0).is_err());
    assert_eq!(AuthConfig::new_for_tests().unwrap().argon2_permits(), 8);
    let request = LoginRequest::new("pw".to_owned(), "bucket".to_owned());
    assert_eq!((request.password(), request.source_bucket()), ("pw", "bucket"));
    let a = new_token().unwrap();
    let b = new_token().unwrap();
    assert_eq!(a.len(), 43);
    assert_ne!(a, b);
    assert!(csrf_tokens_match("abc", "abc"));
    assert!(!csrf_tokens_match("abc", "abd"));
}

#[test]
fn maintenance_operations_and_media_status() {
    assert_eq!(MaintenanceOperation::parse("scan_expired_trash"), Some(MaintenanceOperation::ScanExpiredTrash));
    assert_eq!(MaintenanceOperation::RegenerateDerivatives.as_str(), "regenerate_derivatives");
    assert_eq!(MaintenanceOperation::parse("other"), None);
    let status = media_status(MediaRootProbe::NotDirectory);
    assert_eq!(status.status, "unavailable");
    assert_eq!(status.message, Some("配置的媒体路径不是目录".to_owned()));
}

#[test]
fn refresh_failures_end_it_with_their_cause() {
    let paging = RefreshPhase::Paging { visibility: PixivFollowingVisibility::Private };
    let (phase, action) = refresh_step(5, paging, RefreshEvent::PixivFailed(PixivErrorClass::RateLimited));
    assert_eq!(phase, RefreshPhase::Finished);
    assert_eq!(action, RefreshAction::Complete(Err(FollowingServiceError::Pixiv(PixivErrorClass::RateLimited))));
    let (_, action) = refresh_step(5, RefreshPhase::Syncing, RefreshEvent::StorageFailed(DbError::NotFound));
    assert_eq!(action, RefreshAction::Complete(Err(FollowingServiceError::Storage(DbError::NotFound))));
    let (_, action) = refresh_step(5, RefreshPhase::Listing, RefreshEvent::Listed);
    assert_eq!(action, RefreshAction::Complete(Ok(())));
}

#[test]
fn a_started_writeback_reports_storage_failures_not_mismatches() {
    let (_, action) = writeback_step(WritebackPhase::Recording { outcome: WritebackOutcome {
        status: BookmarkWritebackStatus::Succeeded, bookmark_id: Some(3), error: None,
    } }, WritebackEvent::StorageFailed(DbError::NotFound));
    assert_eq!(action, WritebackAction::Complete(Err(BookmarkWritebackError::Storage(DbError::NotFound))));
    let (_, action) = writeback_step(WritebackPhase::LookingUpRemoteBookmark, WritebackEvent::PixivFailed(PixivErrorClass::Network));
    assert_eq!(action, WritebackAction::Record(WritebackOutcome {
        status: BookmarkWritebackStatus::Failed, bookmark_id: None, error: Some(PixivErrorClass::Network),
    }));
}
