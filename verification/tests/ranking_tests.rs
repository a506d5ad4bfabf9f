use pixivarchive::domain::{DbError, JobErrorClass, PixivErrorClass};
use pixivarchive::executors::RatePacer;
use pixivarchive::pixiv_works::{PixivWorkProcessingError, ProcessedPixivWork};
use pixivarchive::ranking::{
    RankingAction, RankingConfig, RankingEvent, RankingUnitResult, ranking_step, start_ranking,
};
use pixivarchive::runtime::{ScanSchedule, StorageWriteGuard, TRASH_PURGE_DUE_LIMIT, trash_scan_limit};
use pixivarchive::subscriptions::bookmarks_reconcile;

const DAY: i32 = 2_460_000;

#[test]
fn ranking_config_covers_the_rank_limit_and_lookback() {
    let config = RankingConfig::new(120, 50, 2, false);
    assert_eq!((config.max_rank, config.max_page, config.period_count), (120, 3, 3));
    assert_eq!(RankingConfig::new(0, 50, u32::MAX, true).max_page, 1);
    assert_eq!(RankingConfig::new(0, 50, u32::MAX, true).period_count, u32::MAX);
}

#[test]
fn backfill_reads_each_work_once_and_goes_on_from_the_day_before_the_oldest_period() {
    let config = RankingConfig::new(2, 50, 1, true);
    let (state, action) = start_ranking(config, Some(DAY));
    assert_eq!(action, RankingAction::FetchPage { date: Some(DAY), page: 1 });
    let (state, action) = ranking_step(
        state,
        RankingEvent::PageFetched { date: Some(DAY), items: vec![(1, 100), (3, 101), (1, 100), (2, 102)], has_next: true },
    );
    assert_eq!(action, RankingAction::ProcessWork { work_id: 100, rank: 1, date: Some(DAY) });
    let (state, action) =
        ranking_step(state, RankingEvent::WorkProcessed(Ok(ProcessedPixivWork::MetadataSaved { work_id: 7 })));
    assert_eq!(action, RankingAction::RecordEntry { work_id: 100, rank: 1, date: Some(DAY), page: 1 });
    let (state, action) = ranking_step(state, RankingEvent::EntryRecorded { recorded: true });
    assert_eq!(action, RankingAction::ProcessWork { work_id: 102, rank: 2, date: Some(DAY) });
    let (state, action) = ranking_step(state, RankingEvent::WorkProcessed(Ok(ProcessedPixivWork::Ignored)));
    // One page per period: the next period is the previous day.
    assert_eq!(action, RankingAction::FetchPage { date: Some(DAY - 1), page: 1 });
    let (state, action) = ranking_step(
        state,
        RankingEvent::PageFetched { date: None, items: vec![(1, 100), (1, 200)], has_next: false },
    );
    assert_eq!(action, RankingAction::ProcessWork { work_id: 200, rank: 1, date: Some(DAY - 1) });
    let (_, action) = ranking_step(
        state,
        RankingEvent::WorkProcessed(Err(PixivWorkProcessingError::Pixiv(JobErrorClass::Permanent))),
    );
    assert_eq!(
        action,
        RankingAction::Finish(Ok(RankingUnitResult { discovered: 1, ignored: 2, cursor_date: Some(DAY - 2) }))
    );
}

#[test]
fn the_latest_ranking_follows_pages_and_reports_its_first_day() {
    let config = RankingConfig::new(100, 50, 0, false);
    let (state, action) = start_ranking(config, Some(DAY));
    assert_eq!(action, RankingAction::FetchPage { date: None, page: 1 });
    let (state, action) =
        ranking_step(state, RankingEvent::PageFetched { date: Some(DAY), items: vec![(101, 5)], has_next: true });
    assert_eq!(action, RankingAction::FetchPage { date: Some(DAY), page: 2 });
    let (state, action) =
        ranking_step(state, RankingEvent::PageFetched { date: Some(DAY), items: vec![(51, 6)], has_next: true });
    assert_eq!(action, RankingAction::ProcessWork { work_id: 6, rank: 51, date: Some(DAY) });
    let (state, action) =
        ranking_step(state, RankingEvent::WorkProcessed(Ok(ProcessedPixivWork::DownloadQueued { work_id: 1, job_id: 2 })));
    assert_eq!(action, RankingAction::RecordEntry { work_id: 6, rank: 51, date: Some(DAY), page: 2 });
    let (_, action) = ranking_step(state, RankingEvent::EntryRecorded { recorded: false });
    assert_eq!(
        action,
        RankingAction::Finish(Ok(RankingUnitResult { discovered: 0, ignored: 0, cursor_date: Some(DAY) }))
    );
}

#[test]
fn ranking_failures_end_the_unit_with_their_class() {
    let config = RankingConfig::new(20, 50, 0, false);
    let (state, _) = start_ranking(config, None);
    let (_, action) = ranking_step(state, RankingEvent::PageFailed(PixivErrorClass::RateLimited));
    assert_eq!(action, RankingAction::Finish(Err(JobErrorClass::RateLimit)));

    let (state, _) = start_ranking(config, None);
    let (state, _) = ranking_step(state, RankingEvent::PageFetched { date: None, items: vec![(1, 9)], has_next: false });
    let (_, action) = ranking_step(
        state,
        RankingEvent::WorkProcessed(Err(PixivWorkProcessingError::Pixiv(JobErrorClass::Network))),
    );
    assert_eq!(action, RankingAction::Finish(Err(JobErrorClass::Network)));

    let (state, _) = start_ranking(config, None);
    let (state, _) = ranking_step(state, RankingEvent::PageFetched { date: None, items: vec![(1, 9)], has_next: false });
    let (state, _) = ranking_step(state, RankingEvent::WorkProcessed(Ok(ProcessedPixivWork::MetadataSaved { work_id: 1 })));
    let (_, action) = ranking_step(state, RankingEvent::RecordFailed(DbError::LeaseConflict));
    assert_eq!(action, RankingAction::Finish(Err(JobErrorClass::Server)));
}

#[test]
fn an_empty_latest_ranking_reports_no_day() {
    let (state, _) = start_ranking(RankingConfig::new(20, 50, 0, false), None);
    let (_, action) = ranking_step(state, RankingEvent::PageFetched { date: None, items: vec![], has_next: false });
    assert_eq!(action, RankingAction::Finish(Ok(RankingUnitResult { discovered: 0, ignored: 0, cursor_date: None })));
}

#[test]
fn rate_pacer_spaces_starts_by_its_interval() {
    let mut pacer = RatePacer::new(250, 1_000);
    assert_eq!(pacer.schedule(1_000), 1_000);
    assert_eq!(pacer.schedule(1_010), 1_250);
    assert_eq!(pacer.schedule(1_020), 1_500);
    assert_eq!(pacer.schedule(5_000), 5_000);
    assert_eq!(pacer.next_start, 5_250);
}

#[test]
fn trash_scans_ask_for_at_most_one_hundred_purges_when_due() {
    assert_eq!(TRASH_PURGE_DUE_LIMIT, 100);
    let mut schedule = ScanSchedule::with_interval(900).unwrap();
    assert_eq!(trash_scan_limit(&schedule, 0), Some(100));
    schedule.record_scan(0);
    assert_eq!(trash_scan_limit(&schedule, 60), None);
    assert_eq!(trash_scan_limit(&schedule, 900), Some(100));
}

#[test]
fn bookmarks_reconcile_only_after_a_full_pass_without_pending_retries() {
    assert!(bookmarks_reconcile(true, false));
    assert!(!bookmarks_reconcile(true, true));
    assert!(!bookmarks_reconcile(false, false));
}

#[test]
fn a_cloned_storage_guard_keeps_its_root() {
    let guard = StorageWriteGuard::new("/srv/media".to_owned(), 10);
    let copy = guard.clone();
    assert_eq!(copy.media_root(), "/srv/media");
    assert_eq!(copy, guard);
}

#[test]
fn new_tokens_are_forty_three_url_safe_characters() {
    let token = pixivarchive::auth::new_token().unwrap();
    assert_eq!(token.len(), 43);
    assert!(token.chars().all(|c| c.is_ascii_alphanumeric() || c == '-' || c == '_'));
}

#[test]
fn any_two_paced_starts_are_their_distance_in_intervals_apart() {
    let mut pacer = RatePacer::new(40, 0);
    let asks = [0u128, 0, 95, 96, 300, 301, 302];
    let starts: Vec<u128> = asks.iter().map(|now| pacer.schedule(*now)).collect();
    assert_eq!(starts, vec![0, 40, 95, 135, 300, 340, 380]);
    for i in 0..starts.len() {
        assert!(starts[i] >= asks[i]);
        for j in i..starts.len() {
            assert!(starts[j] >= starts[i] + (j - i) as u128 * 40);
        }
    }
}

#[test]
fn backfill_stops_at_the_first_day_of_the_calendar() {
    let first_day = -1_930_999;
    for (day, cursor) in [(first_day, None), (first_day + 1, Some(first_day))] {
        let config = RankingConfig::new(2, 50, 0, true);
        let (state, action) = start_ranking(config, Some(day));
        assert_eq!(action, RankingAction::FetchPage { date: Some(day), page: 1 });
        let (_, action) =
            ranking_step(state, RankingEvent::PageFetched { date: Some(day), items: vec![], has_next: false });
        assert_eq!(
            action,
            RankingAction::Finish(Ok(RankingUnitResult { discovered: 0, ignored: 0, cursor_date: cursor }))
        );
    }
}
