use pixivarchive::collection::{
    BookmarkVisibility, BookmarksAction, BookmarksEvent, BookmarksUnitResult, DiscoveryAction, DiscoveryTotals,
    FollowingAction, FollowingEvent, bookmarks_step, discovery_pass_step, following_step, start_bookmarks_unit,
    start_discovery_pass, start_following_unit,
};
use pixivarchive::domain::{DbError, JobErrorClass, PixivErrorClass};
use pixivarchive::following::FollowingServiceError;
use pixivarchive::pixiv_works::{PixivWorkProcessingError, ProcessedPixivWork};
use pixivarchive::trash::scheduled_purge_at;

#[test]
fn a_discovery_pass_counts_each_work_once() {
    let (pass, action) = start_discovery_pass(&vec![4, 5, 4, 6], true, 2);
    assert_eq!(action, DiscoveryAction::ProcessWork(4));
    let (pass, action) = discovery_pass_step(pass, Ok(ProcessedPixivWork::MetadataSaved { work_id: 1 }));
    assert_eq!(action, DiscoveryAction::ProcessWork(5));
    let (pass, action) = discovery_pass_step(pass, Err(PixivWorkProcessingError::Pixiv(JobErrorClass::Network)));
    assert_eq!(action, DiscoveryAction::ProcessWork(6));
    let (_, action) = discovery_pass_step(pass, Ok(ProcessedPixivWork::BlockedByDeletionMarker));
    assert_eq!(
        action,
        DiscoveryAction::Finish(Ok(DiscoveryTotals { discovered: 1, ignored: 4, retry_pending: true }))
    );
    let (pass, _) = start_discovery_pass(&vec![9], false, 0);
    let (_, action) = discovery_pass_step(pass, Err(PixivWorkProcessingError::Pixiv(JobErrorClass::Network)));
    assert_eq!(action, DiscoveryAction::Finish(Err(JobErrorClass::Network)));
    let (_, action) = start_discovery_pass(&vec![], false, 3);
    assert_eq!(action, DiscoveryAction::Finish(Ok(DiscoveryTotals { discovered: 0, ignored: 3, retry_pending: false })));
}

#[test]
fn an_incremental_bookmark_unit_reads_its_budget_of_each_list() {
    let (unit, action) = start_bookmarks_unit(false, 0);
    assert_eq!(action, BookmarksAction::FetchPage { visibility: BookmarkVisibility::Public, offset: 0 });
    let (unit, action) = bookmarks_step(unit, BookmarksEvent::PageFetched { items: vec![30, 10], next_offset: Some(48) });
    assert_eq!(action, BookmarksAction::FetchPage { visibility: BookmarkVisibility::Private, offset: 0 });
    let (unit, action) = bookmarks_step(unit, BookmarksEvent::PageFetched { items: vec![20], next_offset: Some(48) });
    assert_eq!(action, BookmarksAction::ProcessWorks);
    assert_eq!(unit.work_ids(), &vec![30, 10, 20]);
    let totals = DiscoveryTotals { discovered: 2, ignored: 1, retry_pending: false };
    let (_, action) = bookmarks_step(unit, BookmarksEvent::WorksProcessed(Ok(totals)));
    assert_eq!(
        action,
        BookmarksAction::Finish(Ok(BookmarksUnitResult { discovered: 2, ignored: 1, full_reconcile: false, retry_pending: false }))
    );
}

#[test]
fn a_full_bookmark_unit_follows_every_page_and_reconciles() {
    let (unit, _) = start_bookmarks_unit(true, 1);
    let (unit, action) = bookmarks_step(unit, BookmarksEvent::PageFetched { items: vec![30], next_offset: Some(1) });
    assert_eq!(action, BookmarksAction::FetchPage { visibility: BookmarkVisibility::Public, offset: 1 });
    let (unit, _) = bookmarks_step(unit, BookmarksEvent::PageFetched { items: vec![10], next_offset: None });
    let (unit, action) = bookmarks_step(unit, BookmarksEvent::PageFetched { items: vec![20], next_offset: None });
    assert_eq!(action, BookmarksAction::ProcessWorks);
    assert_eq!(
        unit.reconcile_entries(),
        vec![(10, BookmarkVisibility::Public), (20, BookmarkVisibility::Private), (30, BookmarkVisibility::Public)]
    );
    let pending = DiscoveryTotals { discovered: 1, ignored: 2, retry_pending: true };
    let totals = DiscoveryTotals { discovered: 3, ignored: 0, retry_pending: false };
    let (unit, action) = bookmarks_step(unit, BookmarksEvent::WorksProcessed(Ok(totals)));
    assert_eq!(action, BookmarksAction::Reconcile);
    let (_, action) = bookmarks_step(unit, BookmarksEvent::Reconciled);
    assert_eq!(
        action,
        BookmarksAction::Finish(Ok(BookmarksUnitResult { discovered: 3, ignored: 0, full_reconcile: true, retry_pending: false }))
    );
    let (unit, _) = start_bookmarks_unit(true, 1);
    let (unit, _) = bookmarks_step(unit, BookmarksEvent::PageFetched { items: vec![], next_offset: None });
    let (unit, _) = bookmarks_step(unit, BookmarksEvent::PageFetched { items: vec![], next_offset: None });
    let (_, action) = bookmarks_step(unit, BookmarksEvent::WorksProcessed(Ok(pending)));
    assert_eq!(
        action,
        BookmarksAction::Finish(Ok(BookmarksUnitResult { discovered: 1, ignored: 2, full_reconcile: false, retry_pending: true }))
    );
    let (unit, _) = start_bookmarks_unit(true, 1);
    let (_, action) = bookmarks_step(unit, BookmarksEvent::PageFailed(PixivErrorClass::Network));
    assert_eq!(action, BookmarksAction::Finish(Err(JobErrorClass::Network)));
}

#[test]
fn a_following_unit_collects_enabled_artists_within_its_page_limit() {
    let (unit, action) = start_following_unit(false, 1);
    assert_eq!(action, FollowingAction::RefreshAuthors);
    let (unit, action) = following_step(unit, FollowingEvent::AuthorsRefreshed(vec![(10, true), (20, false)]));
    assert_eq!(action, FollowingAction::FetchPage { page: 1 });
    let (unit, action) =
        following_step(unit, FollowingEvent::PageFetched { items: vec![(1, 10), (2, 20)], next_page: Some(2) });
    assert_eq!(action, FollowingAction::FetchPage { page: 2 });
    let (unit, action) =
        following_step(unit, FollowingEvent::PageFetched { items: vec![(1, 10), (3, 10)], next_page: Some(3) });
    assert_eq!(action, FollowingAction::ProcessWorks { filtered: 1 });
    assert_eq!(unit.work_ids(), &vec![1, 3]);
    let totals = DiscoveryTotals { discovered: 2, ignored: 1, retry_pending: false };
    let (unit, action) = following_step(unit, FollowingEvent::WorksProcessed(Ok(totals)));
    assert_eq!(action, FollowingAction::MarkCollected);
    let (_, action) = following_step(unit, FollowingEvent::Marked);
    assert_eq!(action, FollowingAction::Finish(Ok(totals)));
}

#[test]
fn a_following_unit_stops_without_enabled_artists_or_on_a_stuck_cursor() {
    let (unit, _) = start_following_unit(true, 0);
    let (_, action) = following_step(unit, FollowingEvent::AuthorsRefreshed(vec![(20, false)]));
    assert_eq!(action, FollowingAction::Finish(Ok(DiscoveryTotals { discovered: 0, ignored: 0, retry_pending: false })));
    let (unit, _) = start_following_unit(true, 0);
    let (unit, _) = following_step(unit, FollowingEvent::AuthorsRefreshed(vec![(10, true)]));
    let (_, action) = following_step(unit, FollowingEvent::PageFetched { items: vec![], next_page: Some(1) });
    assert_eq!(action, FollowingAction::Finish(Err(JobErrorClass::Permanent)));
    let (unit, _) = start_following_unit(true, 0);
    let (_, action) = following_step(unit, FollowingEvent::RefreshFailed(FollowingServiceError::Storage(DbError::NotFound)));
    assert_eq!(action, FollowingAction::Finish(Err(JobErrorClass::Permanent)));
}

#[test]
fn trash_purges_are_scheduled_whole_days_ahead() {
    assert_eq!(scheduled_purge_at(1_000, 30), Ok(1_000 + 30 * 86_400));
    assert_eq!(
        scheduled_purge_at(1_000, 0),
        Err(DbError::InvalidValue("trash retention must be between 1 and 365 days".to_owned()))
    );
    assert!(scheduled_purge_at(1_000, 366).is_err());
}
