use pixivarchive::domain::{DbError, JobErrorClass, PixivAccountState, PixivErrorClass};
use pixivarchive::executors::{
    ExecutionGate, ExecutionGateError, ExecutorOutcome, context_error_class, default_failure_message,
    stored_failure_outcome,
};
use pixivarchive::media::{
    DerivativeAction, DerivativeEvent, DerivativePhase, DownloadItemAction, DownloadItemEvent,
    DownloadItemPhase, DownloadItemPlan, DownloadItemState, DownloadJobAction, DownloadJobEvent,
    DownloadJobPhase, MediaExecutionStatus, MediaFailure, MediaFailureReason, MediaKind,
    MediaProcessingFailure, PrepareSourceError, MediaPathErrorKind, StorageErrorKind, StorageWriteStatus,
    derivative_step, download_item_step, download_job_step, frame_extension, pending_items,
};
use pixivarchive::pixiv_accounts::{PixivAccountContextError, PixivCookieCipherError};
use pixivarchive::runtime::{
    DuePassAction, DuePassEvent, DuePassPhase, EnvError, HeartbeatResolution, JobStateSeen, OutcomeKind,
    RuntimeError, ScanSchedule, SchedulerError, due_pass_step,
    SelectionAction, SelectionEvent, SelectionPhase, StorageWriteGuard, TaskFailure, TransitionStep,
    handle_task_result, optional_bool_env, unregistered_failure, required_absolute_path_env, resolve_heartbeat_failure, selection_step,
};
use pixivarchive::system::StorageCapacity;
use pixivarchive::trash::{
    DeletionMethod, PurgeAction, PurgeEvent, PurgeFileResult, PurgePhase, TrashCleanupError,
    TrashSelectionCommandError, TrashSelectionMutation, purge_step, require_unblocked,
    summarize_purge, validate_due_purge_limit, validate_retention,
};
use pixivarchive::worker_state::WorkerState;

#[test]
fn oversized_pixiv_responses_are_not_retried_by_media_downloads() {
    let failure = MediaFailure::pixiv(PixivErrorClass::ResponseTooLarge, None, "too large".to_owned());
    assert_eq!(failure.error_class, JobErrorClass::Permanent);
}

#[test]
fn invalid_stored_cookie_blocks_the_account_without_hiding_internal_failures() {
    assert_eq!(
        context_error_class(&PixivAccountContextError::Cipher(PixivCookieCipherError::InvalidCredential)),
        JobErrorClass::CredentialInvalid
    );
    assert_eq!(
        context_error_class(&PixivAccountContextError::Cipher(PixivCookieCipherError::InvalidKeyring)),
        JobErrorClass::Server
    );
    assert_eq!(
        context_error_class(&PixivAccountContextError::AccountUnavailable { state: PixivAccountState::CredentialInvalid }),
        JobErrorClass::CredentialInvalid
    );
}

#[test]
fn failed_outcomes_carry_the_default_message() {
    let outcome: ExecutorOutcome<()> = ExecutorOutcome::failed(JobErrorClass::RateLimit, Some(30));
    assert_eq!(
        outcome,
        ExecutorOutcome::Failed {
            error_class: JobErrorClass::RateLimit,
            retry_after_seconds: Some(30),
            message: Some("Pixiv 请求频率受限".to_owned()),
        }
    );
    assert_eq!(default_failure_message(JobErrorClass::Permanent), "任务参数或来源数据无法处理");
}

#[test]
fn stored_failures_keep_their_class_or_become_permanent() {
    let known: ExecutorOutcome<()> = stored_failure_outcome(Some("network"), Some("offline".to_owned()));
    assert_eq!(known, ExecutorOutcome::Failed { error_class: JobErrorClass::Network, retry_after_seconds: None, message: Some("offline".to_owned()) });
    let unknown: ExecutorOutcome<()> = stored_failure_outcome(Some("weird"), None);
    assert_eq!(
        unknown,
        ExecutorOutcome::Failed { error_class: JobErrorClass::Permanent, retry_after_seconds: None, message: Some("任务参数或来源数据无法处理".to_owned()) }
    );
}

#[test]
fn execution_gate_validates_concurrency_and_rate() {
    assert_eq!(ExecutionGate::new(0, None), Err(ExecutionGateError::InvalidConcurrency));
    assert_eq!(ExecutionGate::new(2, Some((0, 1_000))), Err(ExecutionGateError::InvalidRate));
    assert_eq!(ExecutionGate::new(2, Some((10, 5))), Err(ExecutionGateError::InvalidRate));
    assert_eq!(
        ExecutionGate::new(2, Some((4, 1_000_000_000))),
        Ok(ExecutionGate { concurrency: 2, start_interval_nanos: Some(250_000_000) })
    );
}

#[test]
fn media_failures_classify_storage_and_database_errors() {
    assert_eq!(MediaFailure::storage(StorageErrorKind::Stream, String::new()).error_class, JobErrorClass::Network);
    assert_eq!(MediaFailure::storage(StorageErrorKind::Storage, String::new()).error_class, JobErrorClass::Server);
    assert_eq!(MediaFailure::storage(StorageErrorKind::Rejected, String::new()).error_class, JobErrorClass::Permanent);
    assert_eq!(MediaFailure::database(&DbError::LeaseConflict, String::new()).error_class, JobErrorClass::Server);
    assert_eq!(MediaFailure::database(&DbError::NotFound, String::new()).error_class, JobErrorClass::Permanent);
    let reason = MediaFailureReason::PlanMismatch.failure();
    assert_eq!(reason.error_class, JobErrorClass::Permanent);
    assert_eq!(reason.message, "下载任务与作品记录不一致");
}

#[test]
fn processing_failures_classify_sources() {
    assert_eq!(MediaProcessingFailure::prepare_source(PrepareSourceError::Worker).error_class, JobErrorClass::Server);
    assert_eq!(
        MediaProcessingFailure::prepare_source(PrepareSourceError::MediaPath(MediaPathErrorKind::Invalid)).error_class,
        JobErrorClass::Permanent
    );
    assert_eq!(MediaProcessingFailure::database(&DbError::Query("x".to_owned())).error_class, JobErrorClass::Server);
}

#[test]
fn frame_extensions_cover_jpeg_and_png_only() {
    assert_eq!(frame_extension("image/jpeg"), Some("jpg"));
    assert_eq!(frame_extension("image/png"), Some("png"));
    assert_eq!(frame_extension("image/gif"), None);
}

#[test]
fn pending_items_skip_what_this_job_already_stored() {
    let items = vec![
        DownloadItemState { current_download_job: None },
        DownloadItemState { current_download_job: Some(Some(9)) },
        DownloadItemState { current_download_job: Some(Some(3)) },
        DownloadItemState { current_download_job: Some(None) },
    ];
    assert_eq!(pending_items(&items, 9), vec![0, 2, 3]);
}

#[test]
fn download_job_checks_storage_before_each_item_and_completes_with_the_last() {
    let (phase, action) = download_job_step(DownloadJobPhase::ReadingPayload, DownloadJobEvent::PayloadRead { pixiv_work_id: 0 });
    assert_eq!(phase, DownloadJobPhase::Finished);
    assert_eq!(action, DownloadJobAction::Fail(MediaFailureReason::InvalidWorkId));
    let (phase, _) = download_job_step(DownloadJobPhase::LoadingContext { pending: 2 }, DownloadJobEvent::ContextReady);
    assert_eq!(phase, DownloadJobPhase::CheckingStorage { next: 0, count: 2 });
    let (phase, action) = download_job_step(phase, DownloadJobEvent::StorageStatus(StorageWriteStatus::Allowed));
    assert_eq!(action, DownloadJobAction::DownloadItem { index: 0, complete_job: false });
    let (phase, _) = download_job_step(phase, DownloadJobEvent::ItemDownloaded);
    let (phase, action) = download_job_step(phase, DownloadJobEvent::StorageStatus(StorageWriteStatus::Allowed));
    assert_eq!(action, DownloadJobAction::DownloadItem { index: 1, complete_job: true });
    let (_, action) = download_job_step(phase, DownloadJobEvent::ItemDownloaded);
    assert_eq!(action, DownloadJobAction::Complete(Ok(MediaExecutionStatus::Finalized)));
    let (_, action) = download_job_step(DownloadJobPhase::CheckingStorage { next: 0, count: 1 }, DownloadJobEvent::StorageStatus(StorageWriteStatus::Stopped));
    assert_eq!(action, DownloadJobAction::Complete(Ok(MediaExecutionStatus::WaitingStorage)));
}

#[test]
fn redundant_download_is_removed_without_saving() {
    let plan = DownloadItemPlan {
        kind: MediaKind::SourceImage,
        has_ugoira_manifest: false,
        complete_job: true,
        current_sha256: Some([7; 32]),
    };
    let mut other = [7u8; 32];
    other[31] = 8;
    let (_, action) = download_item_step(plan, DownloadItemPhase::Ingesting, DownloadItemEvent::Ingested { stored_sha256: other });
    assert_eq!(action, DownloadItemAction::FindDuplicate);
    let fresh = DownloadItemPlan { current_sha256: None, ..plan };
    let (_, action) = download_item_step(fresh, DownloadItemPhase::Ingesting, DownloadItemEvent::Ingested { stored_sha256: [7; 32] });
    assert_eq!(action, DownloadItemAction::FindDuplicate);
    let (phase, action) = download_item_step(plan, DownloadItemPhase::Ingesting, DownloadItemEvent::Ingested { stored_sha256: [7; 32] });
    assert_eq!(action, DownloadItemAction::CheckCurrentFile);
    let (phase, action) = download_item_step(plan, phase, DownloadItemEvent::CurrentFile { exists: true });
    assert_eq!(action, DownloadItemAction::RemoveRedundantFile);
    let (_, action) = download_item_step(plan, phase, DownloadItemEvent::RedundantFileRemoved);
    assert_eq!(action, DownloadItemAction::CompleteJob);
    let ugoira = DownloadItemPlan {
        kind: MediaKind::UgoiraZip,
        has_ugoira_manifest: false,
        complete_job: false,
        current_sha256: None,
    };
    let (_, action) = download_item_step(ugoira, DownloadItemPhase::RegisteringIntent, DownloadItemEvent::IntentRegistered);
    assert_eq!(action, DownloadItemAction::Fail(MediaFailureReason::MissingUgoiraManifest));
}

#[test]
fn derivative_waits_for_storage_and_picks_the_kind() {
    let (_, action) = derivative_step(DerivativePhase::CheckingStorageFirst, DerivativeEvent::StorageStatus(StorageWriteStatus::Stopped));
    assert_eq!(action, DerivativeAction::Complete(Ok(MediaExecutionStatus::WaitingStorage)));
    let (_, action) = derivative_step(DerivativePhase::PreparingSource { kind: MediaKind::UgoiraZip, regenerate: false }, DerivativeEvent::SourcePrepared);
    assert_eq!(action, DerivativeAction::BuildPath(pixivarchive::media::DerivativeKind::UgoiraCover));
    let (_, action) = derivative_step(DerivativePhase::Saving, DerivativeEvent::Saved);
    assert_eq!(action, DerivativeAction::Complete(Ok(MediaExecutionStatus::Finalized)));
}

#[test]
fn trash_limits_and_selection_commands() {
    assert!(validate_retention(0).is_err());
    assert!(validate_retention(1).is_ok());
    assert!(validate_retention(365).is_ok());
    assert_eq!(validate_retention(366), Err(DbError::InvalidValue("trash retention must be between 1 and 365 days".to_owned())));
    assert!(validate_due_purge_limit(0).is_err());
    assert!(validate_due_purge_limit(1000).is_ok());
    assert!(validate_due_purge_limit(1001).is_err());
    assert_eq!(require_unblocked(TrashSelectionMutation { selected_count: 5, affected_count: 5, blocked_count: 0 }), Ok(5));
    assert_eq!(
        require_unblocked(TrashSelectionMutation { selected_count: 5, affected_count: 3, blocked_count: 2 }),
        Err(TrashSelectionCommandError::Blocked { selected_count: 5, blocked_count: 2 })
    );
    assert_eq!(DeletionMethod::parse("manual_purge"), Some(DeletionMethod::ManualPurge));
    assert_eq!(DeletionMethod::parse("other"), None);
}

#[test]
fn purge_records_failures_and_fails_permanently_on_escaping_paths() {
    let summary = summarize_purge(&vec![PurgeFileResult::Removed, PurgeFileResult::InvalidPath, PurgeFileResult::Absent, PurgeFileResult::Failed]);
    assert_eq!(summary.failed, vec![1, 3]);
    assert!(summary.permanent);
    let (phase, action) = purge_step(PurgePhase::RemovingFiles, PurgeEvent::FilesHandled { failures: 2, permanent: true });
    assert_eq!(action, PurgeAction::RecordFailures);
    let (_, action) = purge_step(phase, PurgeEvent::FailuresRecorded);
    assert_eq!(action, PurgeAction::Complete(Err(TrashCleanupError::InvalidMediaPath)));
    let (_, action) = purge_step(PurgePhase::LoadingPlan, PurgeEvent::StorageFailed(DbError::NotFound));
    assert_eq!(action, PurgeAction::CheckPurgeCompleted);
    assert_eq!(TrashCleanupError::FileSystem.error_class(), JobErrorClass::Server);
}

#[test]
fn selection_answers_and_forgives_only_cancelled_conflicts() {
    let (_, action) = selection_step(SelectionPhase::Claiming, SelectionEvent::Claimed(None));
    assert_eq!(action, SelectionAction::Complete(Ok(false)));
    let (_, action) = selection_step(SelectionPhase::Claiming, SelectionEvent::Claimed(Some(false)));
    assert_eq!(action, SelectionAction::FailUnregistered);
    let (phase, action) = selection_step(
        SelectionPhase::Executing,
        SelectionEvent::Executed(Some(OutcomeKind::Failed { error_class: JobErrorClass::Network, retry_after_seconds: None })),
    );
    assert_eq!(action, SelectionAction::ClassifyFailure { error_class: JobErrorClass::Network, retry_after_seconds: None });
    let (_, action) = selection_step(phase, SelectionEvent::FailureClassified);
    assert_eq!(action, SelectionAction::ApplyFailure { error_class: JobErrorClass::Network });
    let (phase, action) = selection_step(SelectionPhase::Transitioning { step: TransitionStep::Completing }, SelectionEvent::TransitionFailed(DbError::LeaseConflict));
    assert_eq!(action, SelectionAction::CheckCancelled);
    let (_, action) = selection_step(phase.clone(), SelectionEvent::CancellationChecked { cancelled: true });
    assert_eq!(action, SelectionAction::Complete(Ok(true)));
    let (_, action) = selection_step(phase, SelectionEvent::CancellationChecked { cancelled: false });
    assert_eq!(action, SelectionAction::Complete(Err(RuntimeError::Transition { step: TransitionStep::Completing, error: DbError::LeaseConflict })));
}

#[test]
fn lost_heartbeats_resolve_by_the_job_state() {
    assert_eq!(resolve_heartbeat_failure(Some(JobStateSeen::Cancelled)), HeartbeatResolution::Cancelled);
    assert_eq!(resolve_heartbeat_failure(Some(JobStateSeen::Completed)), HeartbeatResolution::AwaitOutcome);
    assert_eq!(resolve_heartbeat_failure(None), HeartbeatResolution::Fail);
}

#[test]
fn task_results_stop_the_runtime_only_on_failure() {
    let fine: Result<Result<bool, &str>, &str> = Ok(Ok(true));
    assert_eq!(handle_task_result(fine), Ok(()));
    let failed: Result<Result<bool, &str>, &str> = Ok(Err("boom"));
    assert_eq!(handle_task_result(failed), Err(TaskFailure::Failed("boom")));
    let panicked: Result<Result<bool, &str>, &str> = Err("panic");
    assert_eq!(handle_task_result(panicked), Err(TaskFailure::Panicked("panic")));
}

#[test]
fn environment_settings_are_checked() {
    assert_eq!(required_absolute_path_env("ROOT", Some("/srv".to_owned())), Ok("/srv".to_owned()));
    assert_eq!(required_absolute_path_env("ROOT", Some("srv".to_owned())), Err(EnvError::NotAbsolute { name: "ROOT".to_owned() }));
    assert_eq!(required_absolute_path_env("ROOT", None), Err(EnvError::Missing { name: "ROOT".to_owned() }));
    assert_eq!(optional_bool_env("X", None, true), Ok(true));
    assert_eq!(optional_bool_env("X", Some(" YES ".to_owned()), false), Ok(true));
    assert_eq!(optional_bool_env("X", Some("Off".to_owned()), true), Ok(false));
    assert_eq!(optional_bool_env("X", Some("maybe".to_owned()), true), Err(EnvError::NotBoolean { name: "X".to_owned() }));
}

#[test]
fn storage_guard_stops_at_the_threshold() {
    let guard = StorageWriteGuard::new("/media".to_owned(), 100);
    assert_eq!(guard.media_root(), "/media");
    assert_eq!(guard.status(&StorageCapacity { total_bytes: 1000, available_bytes: 100 }), StorageWriteStatus::Stopped);
    assert_eq!(guard.status(&StorageCapacity { total_bytes: 1000, available_bytes: 101 }), StorageWriteStatus::Allowed);
}

#[test]
fn scan_schedule_waits_one_interval() {
    assert_eq!(ScanSchedule::with_interval(0), Err(SchedulerError::InvalidInterval));
    let mut schedule = ScanSchedule::with_interval(10).unwrap();
    assert!(schedule.is_due(0));
    schedule.record_scan(100);
    assert!(!schedule.is_due(109));
    assert!(schedule.is_due(110));
}

#[test]
fn worker_state_stops_claiming_for_every_clone() {
    let state = WorkerState::new();
    let clone = state.clone();
    assert!(clone.is_accepting_work());
    state.stop_claiming();
    assert!(!clone.is_accepting_work());
}

#[test]
fn due_pass_counts_only_subscriptions_that_were_not_stale() {
    let (phase, action) = due_pass_step(DuePassPhase::Listing, DuePassEvent::Listed(3));
    assert_eq!(action, DuePassAction::ScheduleNext);
    let (phase, action) = due_pass_step(phase, DuePassEvent::Stored { stale: false });
    assert_eq!(action, DuePassAction::ScheduleNext);
    let (phase, action) = due_pass_step(phase, DuePassEvent::Stored { stale: true });
    assert_eq!(action, DuePassAction::ScheduleNext);
    assert_eq!(phase, DuePassPhase::Scheduling { left: 1, scheduled: 1 });
    let (phase, action) = due_pass_step(phase, DuePassEvent::Stored { stale: false });
    assert_eq!(phase, DuePassPhase::Finished);
    assert_eq!(action, DuePassAction::Finish(Ok(2)));
}

#[test]
fn due_pass_with_nothing_due_schedules_nothing() {
    let (phase, action) = due_pass_step(DuePassPhase::Listing, DuePassEvent::Listed(0));
    assert_eq!(phase, DuePassPhase::Finished);
    assert_eq!(action, DuePassAction::Finish(Ok(0)));
}

#[test]
fn due_pass_stops_at_the_first_failure() {
    let phase = DuePassPhase::Scheduling { left: 4, scheduled: 2 };
    let (next, action) = due_pass_step(phase, DuePassEvent::UnknownKind("weekly".to_string()));
    assert_eq!(next, DuePassPhase::Finished);
    assert_eq!(
        action,
        DuePassAction::Finish(Err(SchedulerError::NextRun("unknown subscription kind weekly".to_string())))
    );
    let (_, action) = due_pass_step(phase, DuePassEvent::NextRunFailed("bad schedule".to_string()));
    assert_eq!(action, DuePassAction::Finish(Err(SchedulerError::NextRun("bad schedule".to_string()))));
    let (_, action) = due_pass_step(phase, DuePassEvent::StoreFailed(DbError::LeaseConflict));
    assert_eq!(action, DuePassAction::Finish(Err(SchedulerError::Storage(DbError::LeaseConflict))));
    let (_, action) = due_pass_step(DuePassPhase::Listing, DuePassEvent::ListFailed(DbError::NotFound));
    assert_eq!(action, DuePassAction::Finish(Err(SchedulerError::Storage(DbError::NotFound))));
}

#[test]
fn a_panicked_task_is_reported_as_an_executor_panic() {
    let panicked: TaskFailure<&str, &str> = TaskFailure::Panicked("join error");
    assert_eq!(panicked.context(), Some("executor panic"));
    let failed: TaskFailure<&str, &str> = TaskFailure::Failed("boom");
    assert_eq!(failed.context(), None);
}

#[test]
fn a_job_without_executor_fails_permanently_with_its_message() {
    assert_eq!(unregistered_failure(), (JobErrorClass::Permanent, "没有注册此任务类型的执行器"));
}
