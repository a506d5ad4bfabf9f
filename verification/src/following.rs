//! Followed artists: merging the pages of Pixiv's following lists into one
//! list per artist, the refresh procedure, and following or unfollowing an
//! artist with the local list kept in step.

use vstd::prelude::*;
use crate::domain::{DbError, PixivErrorClass};
use crate::pixiv_accounts::PixivAccountContextError;

verus! {

pub const FOLLOWING_PAGE_SIZE: u32 = 100;

/// Whether an artist is followed publicly or privately.
#[derive(Clone, Copy, Debug, PartialEq, Eq, Structural)]
pub enum PixivFollowingVisibility {
    Public,
    Private,
}

/// One followed artist as a following page lists them.
#[derive(Clone, Debug, PartialEq, Eq)]
pub struct FollowingAuthorSnapshot {
    pub pixiv_artist_id: i64,
    pub display_name: String,
    pub avatar_url: Option<String>,
    pub visibility: PixivFollowingVisibility,
}

/// Each artist's last listing in the pages, by artist id.
pub open spec fn last_listing(s: Seq<FollowingAuthorSnapshot>) -> Map<i64, FollowingAuthorSnapshot>
    decreases s.len(),
{
    if s.len() == 0 {
        Map::empty()
    } else {
        last_listing(s.drop_last()).insert(s.last().pixiv_artist_id, s.last())
    }
}

pub open spec fn sorted_by_artist(s: Seq<FollowingAuthorSnapshot>) -> bool {
    forall|i: int, j: int| 0 <= i < j < s.len() ==> s[i].pixiv_artist_id < s[j].pixiv_artist_id
}

/// A list holds exactly the entries of a map: every artist of the map
/// once, with the map's listing.
pub open spec fn lists_exactly(s: Seq<FollowingAuthorSnapshot>, m: Map<i64, FollowingAuthorSnapshot>) -> bool {
    &&& forall|i: int| 0 <= i < s.len() ==> m.contains_key(#[trigger] s[i].pixiv_artist_id) && m[s[i].pixiv_artist_id] == s[i]
    &&& forall|k: i64| m.contains_key(k) ==> exists|i: int| 0 <= i < s.len() && #[trigger] s[i].pixiv_artist_id == k
}

/// Merges the listings of all following pages, in the order they were
/// read: every artist appears once, with their last listing (so a private
/// follow read after a public one wins), ordered by artist id.
pub fn merge_following_authors(listings: Vec<FollowingAuthorSnapshot>) -> (merged: Vec<FollowingAuthorSnapshot>)
    ensures
        sorted_by_artist(merged@),
        lists_exactly(merged@, last_listing(listings@)),
{
    let mut merged: Vec<FollowingAuthorSnapshot> = Vec::new();
    let mut n: usize = 0;
    let ghost input = listings@;
    let mut rest = listings;
    proof {
        assert(input.take(0) =~= Seq::<FollowingAuthorSnapshot>::empty());
    }
    while n < rest.len()
        invariant
            rest@ == input,
            n <= input.len(),
            sorted_by_artist(merged@),
            lists_exactly(merged@, last_listing(input.take(n as int))),
        decreases input.len() - n,
    {
        let item = rest[n].clone_snapshot();
        let id = item.pixiv_artist_id;
        let mut j: usize = 0;
        while j < merged.len() && merged[j].pixiv_artist_id < id
            invariant
                j <= merged@.len(),
                forall|k: int| 0 <= k < j ==> merged@[k].pixiv_artist_id < id,
            decreases merged.len() - j,
        {
            j = j + 1;
        }
        let ghost before = merged@;
        let ghost prev_map = last_listing(input.take(n as int));
        proof {
            assert(input.take(n as int + 1).drop_last() =~= input.take(n as int));
            assert(input.take(n as int + 1).last() == input[n as int]);
        }
        if j < merged.len() && merged[j].pixiv_artist_id == id {
            merged.set(j, item);
            proof {
                let new_map = prev_map.insert(id, input[n as int]);
                assert(last_listing(input.take(n as int + 1)) == new_map);
                assert forall|i: int| 0 <= i < merged@.len() implies new_map.contains_key(#[trigger] merged@[i].pixiv_artist_id)
                    && new_map[merged@[i].pixiv_artist_id] == merged@[i] by {
                    if i != j {
                        assert(merged@[i] == before[i]);
                        assert(before[i].pixiv_artist_id != id);
                    }
                }
                assert forall|k: i64| new_map.contains_key(k) implies exists|i: int| 0 <= i < merged@.len() && #[trigger] merged@[i].pixiv_artist_id == k by {
                    if k == id {
                        assert(merged@[j as int].pixiv_artist_id == k);
                    } else {
                        let i = choose|i: int| 0 <= i < before.len() && #[trigger] before[i].pixiv_artist_id == k;
                        assert(merged@[i].pixiv_artist_id == k);
                    }
                }
            }
        } else {
            merged.insert(j, item);
            proof {
                let new_map = prev_map.insert(id, input[n as int]);
                assert(last_listing(input.take(n as int + 1)) == new_map);
                assert(!prev_map.contains_key(id)) by {
                    if prev_map.contains_key(id) {
                        let i = choose|i: int| 0 <= i < before.len() && #[trigger] before[i].pixiv_artist_id == id;
                        if i < j {
                        } else {
                            assert(before[j as int].pixiv_artist_id >= id);
                            if i > j {
                                assert(before[j as int].pixiv_artist_id < before[i].pixiv_artist_id);
                            }
                        }
                    }
                }
                assert forall|a: int, b: int| 0 <= a < b < merged@.len() implies merged@[a].pixiv_artist_id < merged@[b].pixiv_artist_id by {
                    if j < before.len() {
                        assert(before[j as int].pixiv_artist_id > id);
                    }
                    if b < j {
                    } else if a < j && b == j {
                    } else if a < j && b > j {
                        assert(merged@[b] == before[b - 1]);
                        if j < before.len() {
                            assert(before[j as int].pixiv_artist_id <= before[b - 1].pixiv_artist_id);
                        }
                    } else if a == j {
                        assert(merged@[b] == before[b - 1]);
                        assert(before[j as int].pixiv_artist_id <= before[b - 1].pixiv_artist_id);
                    } else {
                        assert(merged@[a] == before[a - 1]);
                        assert(merged@[b] == before[b - 1]);
                    }
                }
                assert forall|i: int| 0 <= i < merged@.len() implies new_map.contains_key(#[trigger] merged@[i].pixiv_artist_id)
                    && new_map[merged@[i].pixiv_artist_id] == merged@[i] by {
                    if i < j {
                        assert(merged@[i] == before[i]);
                    } else if i > j {
                        assert(merged@[i] == before[i - 1]);
                    }
                }
                assert forall|k: i64| new_map.contains_key(k) implies exists|i: int| 0 <= i < merged@.len() && #[trigger] merged@[i].pixiv_artist_id == k by {
                    if k == id {
                        assert(merged@[j as int].pixiv_artist_id == k);
                    } else {
                        let i = choose|i: int| 0 <= i < before.len() && #[trigger] before[i].pixiv_artist_id == k;
                        if i < j {
                            assert(merged@[i].pixiv_artist_id == k);
                        } else {
                            assert(merged@[i + 1].pixiv_artist_id == k);
                        }
                    }
                }
            }
        }
        n = n + 1;
    }
    proof {
        assert(input.take(input.len() as int) =~= input);
    }
    merged
}

impl FollowingAuthorSnapshot {
    /// An equal copy.
    pub fn clone_snapshot(&self) -> (c: Self)
        ensures
            c == *self,
    {
        FollowingAuthorSnapshot {
            pixiv_artist_id: self.pixiv_artist_id,
            display_name: self.display_name.clone(),
            avatar_url: match &self.avatar_url {
                Some(u) => Some(u.clone()),
                None => None,
            },
            visibility: self.visibility,
        }
    }
}

/// Whether an artist is followed, as Pixiv answers it.
#[derive(Clone, Copy, Debug, PartialEq, Eq, Structural)]
pub struct ArtistFollowStateView {
    pub pixiv_artist_id: i64,
    pub followed: bool,
}

#[derive(Clone, Debug, PartialEq, Eq)]
pub enum ArtistFollowCommandError {
    NotConfigured,
    Unavailable,
    Storage(DbError),
    Context(PixivAccountContextError),
    Pixiv(PixivErrorClass),
    /// Pixiv did not report the state that was just set.
    StateMismatch,
}

#[derive(Clone, Debug, PartialEq, Eq)]
pub enum FollowingServiceError {
    Storage(DbError),
    Pixiv(PixivErrorClass),
}

#[derive(Clone, Debug, PartialEq, Eq)]
pub enum FollowingRefreshError {
    NotConfigured,
    Unavailable,
    Storage(DbError),
    Context(PixivAccountContextError),
    Refresh(FollowingServiceError),
}

#[derive(Clone, Debug, PartialEq, Eq)]
pub enum FollowingAvatarError {
    NotConfigured,
    Unavailable,
    Storage(DbError),
    Context(PixivAccountContextError),
    Pixiv(PixivErrorClass),
}

/// The follow command port used when Pixiv commands are switched off.
#[derive(Clone, Copy, Debug, Default)]
pub struct DisabledArtistFollowCommandPort;

impl DisabledArtistFollowCommandPort {
    pub fn status(&self, expected_account_id: u128, pixiv_artist_id: i64) -> (r: Result<ArtistFollowStateView, ArtistFollowCommandError>)
        ensures
            r == Err::<ArtistFollowStateView, ArtistFollowCommandError>(ArtistFollowCommandError::Unavailable),
    {
        Err(ArtistFollowCommandError::Unavailable)
    }

    pub fn set_followed(&self, expected_account_id: u128, pixiv_artist_id: i64, followed: bool) -> (r: Result<ArtistFollowStateView, ArtistFollowCommandError>)
        ensures
            r == Err::<ArtistFollowStateView, ArtistFollowCommandError>(ArtistFollowCommandError::Unavailable),
    {
        Err(ArtistFollowCommandError::Unavailable)
    }
}

/// The avatar port used when Pixiv requests are switched off.
#[derive(Clone, Copy, Debug, Default)]
pub struct DisabledFollowingAvatarPort;

impl DisabledFollowingAvatarPort {
    pub fn fetch(&self, source: String) -> (r: Result<(), FollowingAvatarError>)
        ensures
            r == Err::<(), FollowingAvatarError>(FollowingAvatarError::Unavailable),
    {
        Err(FollowingAvatarError::Unavailable)
    }
}

/// The refresh port used when Pixiv requests are switched off.
#[derive(Clone, Copy, Debug, Default)]
pub struct DisabledFollowingRefreshPort;

impl DisabledFollowingRefreshPort {
    pub fn refresh(&self, expected_account_id: u128) -> (r: Result<Vec<FollowingAuthorSnapshot>, FollowingRefreshError>)
        ensures
            r matches Err(e) && e == FollowingRefreshError::Unavailable,
    {
        Err(FollowingRefreshError::Unavailable)
    }
}

/// A request for one page of the following list.
#[derive(Clone, Debug, PartialEq, Eq)]
pub struct PixivFollowingRequest {
    pub user_id: i64,
    pub visibility: PixivFollowingVisibility,
    pub offset: u32,
    pub limit: u32,
    pub language: String,
}

/// The first page of a visibility: from the start, a hundred at a time,
/// in Chinese.
pub fn first_following_request(user_id: i64, visibility: PixivFollowingVisibility) -> (r: PixivFollowingRequest)
    ensures
        r.user_id == user_id,
        r.visibility == visibility,
        r.offset == 0,
        r.limit == FOLLOWING_PAGE_SIZE,
        r.language@ == "zh"@,
{
    PixivFollowingRequest { user_id, visibility, offset: 0, limit: FOLLOWING_PAGE_SIZE, language: String::from_str("zh") }
}

/// Where refreshing the following list stands.
#[derive(Clone, Copy, Debug, PartialEq, Eq, Structural)]
pub enum RefreshPhase {
    LoadingAccount,
    Paging { visibility: PixivFollowingVisibility },
    Syncing,
    Listing,
    Finished,
}

/// What the last call reported.
#[derive(Clone, Debug, PartialEq, Eq)]
pub enum RefreshEvent {
    AccountLoaded { pixiv_user_id: i64 },
    /// A page was read; `more` when Pixiv handed a cursor to the next one.
    PageRead { more: bool },
    Synced,
    Listed,
    StorageFailed(DbError),
    PixivFailed(PixivErrorClass),
}

/// The next call to make, or how the refresh ended.
#[derive(Debug, PartialEq, Eq)]
pub enum RefreshAction {
    /// Read the first page of this visibility.
    FetchFirstPage(PixivFollowingVisibility),
    /// Read the page the cursor points to.
    FetchNextPage,
    /// Replace the stored list with the merged listings.
    SyncAuthors,
    ListAuthors,
    /// The saved credential belongs to another Pixiv user.
    RejectIdentity,
    Complete(Result<(), FollowingServiceError>),
}

pub open spec fn spec_refresh_step(context_user_id: i64, phase: RefreshPhase, event: RefreshEvent) -> (RefreshPhase, RefreshAction) {
    match (phase, event) {
        (RefreshPhase::LoadingAccount, RefreshEvent::AccountLoaded { pixiv_user_id }) => if pixiv_user_id != context_user_id {
            (RefreshPhase::Finished, RefreshAction::RejectIdentity)
        } else {
            (RefreshPhase::Paging { visibility: PixivFollowingVisibility::Public }, RefreshAction::FetchFirstPage(PixivFollowingVisibility::Public))
        },
        (RefreshPhase::Paging { visibility }, RefreshEvent::PageRead { more }) => if more {
            (RefreshPhase::Paging { visibility }, RefreshAction::FetchNextPage)
        } else if visibility == PixivFollowingVisibility::Public {
            (RefreshPhase::Paging { visibility: PixivFollowingVisibility::Private }, RefreshAction::FetchFirstPage(PixivFollowingVisibility::Private))
        } else {
            (RefreshPhase::Syncing, RefreshAction::SyncAuthors)
        },
        (RefreshPhase::Syncing, RefreshEvent::Synced) => (RefreshPhase::Listing, RefreshAction::ListAuthors),
        (RefreshPhase::Listing, RefreshEvent::Listed) => (RefreshPhase::Finished, RefreshAction::Complete(Ok(()))),
        (_, RefreshEvent::PixivFailed(c)) => (RefreshPhase::Finished, RefreshAction::Complete(Err(FollowingServiceError::Pixiv(c)))),
        (_, RefreshEvent::StorageFailed(db)) => (RefreshPhase::Finished, RefreshAction::Complete(Err(FollowingServiceError::Storage(db)))),
        _ => (RefreshPhase::Finished, RefreshAction::RejectIdentity),
    }
}

/// One decision of refreshing the following list: the saved account must
/// be the request's Pixiv user; the public list is read page by page,
/// then the private one; only when both are read in full is the stored
/// list replaced (with `merge_following_authors` of all listings), and the
/// stored list is then answered.
pub fn refresh_step(context_user_id: i64, phase: RefreshPhase, event: RefreshEvent) -> (next: (RefreshPhase, RefreshAction))
    ensures
        next == spec_refresh_step(context_user_id, phase, event),
{
    match (phase, event) {
        (RefreshPhase::LoadingAccount, RefreshEvent::AccountLoaded { pixiv_user_id }) => if pixiv_user_id != context_user_id {
            (RefreshPhase::Finished, RefreshAction::RejectIdentity)
        } else {
            (RefreshPhase::Paging { visibility: PixivFollowingVisibility::Public }, RefreshAction::FetchFirstPage(PixivFollowingVisibility::Public))
        },
        (RefreshPhase::Paging { visibility }, RefreshEvent::PageRead { more }) => if more {
            (RefreshPhase::Paging { visibility }, RefreshAction::FetchNextPage)
        } else {
            match visibility {
                PixivFollowingVisibility::Public => (
                    RefreshPhase::Paging { visibility: PixivFollowingVisibility::Private },
                    RefreshAction::FetchFirstPage(PixivFollowingVisibility::Private),
                ),
                PixivFollowingVisibility::Private => (RefreshPhase::Syncing, RefreshAction::SyncAuthors),
            }
        },
        (RefreshPhase::Syncing, RefreshEvent::Synced) => (RefreshPhase::Listing, RefreshAction::ListAuthors),
        (RefreshPhase::Listing, RefreshEvent::Listed) => (RefreshPhase::Finished, RefreshAction::Complete(Ok(()))),
        (_, RefreshEvent::PixivFailed(c)) => (RefreshPhase::Finished, RefreshAction::Complete(Err(FollowingServiceError::Pixiv(c)))),
        (_, RefreshEvent::StorageFailed(db)) => (RefreshPhase::Finished, RefreshAction::Complete(Err(FollowingServiceError::Storage(db)))),
        _ => (RefreshPhase::Finished, RefreshAction::RejectIdentity),
    }
}

/// The events that the call made in a phase can report.
pub open spec fn refresh_event_expected(phase: RefreshPhase, event: RefreshEvent) -> bool {
    match phase {
        RefreshPhase::LoadingAccount => event is AccountLoaded || event is StorageFailed,
        RefreshPhase::Paging { .. } => event is PageRead || event is PixivFailed || event is StorageFailed,
        RefreshPhase::Syncing => event == RefreshEvent::Synced || event is StorageFailed,
        RefreshPhase::Listing => event == RefreshEvent::Listed || event is StorageFailed,
        RefreshPhase::Finished => false,
    }
}

/// On every event its call can report, a refresh rejects the saved
/// credential exactly when the loaded account is another Pixiv user, and a
/// failure of Pixiv or of storage ends it with that failure.
pub proof fn lemma_refresh_answers_expected_events(context_user_id: i64, phase: RefreshPhase, event: RefreshEvent)
    requires
        refresh_event_expected(phase, event),
    ensures
        ({
            let (next, action) = spec_refresh_step(context_user_id, phase, event);
            &&& (action == RefreshAction::RejectIdentity <==> (phase == RefreshPhase::LoadingAccount
                && (event matches RefreshEvent::AccountLoaded { pixiv_user_id } && pixiv_user_id != context_user_id)))
            &&& (event is PixivFailed ==> action == RefreshAction::Complete(Err(FollowingServiceError::Pixiv(event->PixivFailed_0))))
            &&& (event is StorageFailed ==> action == RefreshAction::Complete(Err(FollowingServiceError::Storage(event->StorageFailed_0))))
            &&& (action == RefreshAction::Complete(Ok(())) <==> phase == RefreshPhase::Listing && event == RefreshEvent::Listed)
        }),
{
}

/// The stored list is replaced only after the private list was read to
/// its end, and the private list is read only after the public one was.
pub proof fn lemma_refresh_reads_both_lists(context_user_id: i64, phase: RefreshPhase, event: RefreshEvent)
    ensures
        ({
            let (next, action) = spec_refresh_step(context_user_id, phase, event);
            &&& (action == RefreshAction::SyncAuthors ==> phase == (RefreshPhase::Paging { visibility: PixivFollowingVisibility::Private })
                && event == (RefreshEvent::PageRead { more: false }))
            &&& (action == RefreshAction::FetchFirstPage(PixivFollowingVisibility::Private) ==>
                phase == (RefreshPhase::Paging { visibility: PixivFollowingVisibility::Public }) && event == (RefreshEvent::PageRead { more: false }))
        }),
{
}

/// Where following or unfollowing an artist stands.
#[derive(Clone, Copy, Debug, PartialEq, Eq, Structural)]
pub enum FollowPhase {
    ReadingState,
    Changing,
    Verifying,
    SyncingLocal { state: ArtistFollowStateView },
    Finished,
}

/// What the last call reported.
#[derive(Clone, Debug, PartialEq, Eq)]
pub enum FollowEvent {
    StateRead(ArtistFollowStateView),
    Changed,
    LocalSynced,
    StorageFailed(DbError),
    PixivFailed(PixivErrorClass),
}

/// The next call to make, or the answer.
#[derive(Debug, PartialEq, Eq)]
pub enum FollowAction {
    ReadState,
    /// Follow (publicly) or unfollow the artist on Pixiv.
    Change { follow: bool },
    /// Make the local list agree with a verified state: a followed artist
    /// is stored (publicly), an unfollowed one removed.
    SyncLocal(ArtistFollowStateView),
    Complete(Result<ArtistFollowStateView, ArtistFollowCommandError>),
}

pub open spec fn spec_follow_step(wanted: bool, phase: FollowPhase, event: FollowEvent) -> (FollowPhase, FollowAction) {
    match (phase, event) {
        (FollowPhase::ReadingState, FollowEvent::StateRead(state)) => if state.followed == wanted {
            (FollowPhase::SyncingLocal { state }, FollowAction::SyncLocal(state))
        } else {
            (FollowPhase::Changing, FollowAction::Change { follow: wanted })
        },
        (FollowPhase::Changing, FollowEvent::Changed) => (FollowPhase::Verifying, FollowAction::ReadState),
        (FollowPhase::Verifying, FollowEvent::StateRead(state)) => if state.followed != wanted {
            (FollowPhase::Finished, FollowAction::Complete(Err(ArtistFollowCommandError::StateMismatch)))
        } else {
            (FollowPhase::SyncingLocal { state }, FollowAction::SyncLocal(state))
        },
        (FollowPhase::SyncingLocal { state }, FollowEvent::LocalSynced) => (FollowPhase::Finished, FollowAction::Complete(Ok(state))),
        (_, FollowEvent::PixivFailed(c)) => (FollowPhase::Finished, FollowAction::Complete(Err(ArtistFollowCommandError::Pixiv(c)))),
        (_, FollowEvent::StorageFailed(db)) => (FollowPhase::Finished, FollowAction::Complete(Err(ArtistFollowCommandError::Storage(db)))),
        _ => (FollowPhase::Finished, FollowAction::Complete(Err(ArtistFollowCommandError::StateMismatch))),
    }
}

/// One decision of setting whether an artist is followed: a state that
/// already holds is only mirrored locally; otherwise the change is sent
/// and Pixiv is asked again, and the local list changes only when Pixiv
/// confirms the wanted state; the answer is the confirmed state.
pub fn follow_step(wanted: bool, phase: FollowPhase, event: FollowEvent) -> (next: (FollowPhase, FollowAction))
    ensures
        next == spec_follow_step(wanted, phase, event),
{
    match (phase, event) {
        (FollowPhase::ReadingState, FollowEvent::StateRead(state)) => if state.followed == wanted {
            (FollowPhase::SyncingLocal { state }, FollowAction::SyncLocal(state))
        } else {
            (FollowPhase::Changing, FollowAction::Change { follow: wanted })
        },
        (FollowPhase::Changing, FollowEvent::Changed) => (FollowPhase::Verifying, FollowAction::ReadState),
        (FollowPhase::Verifying, FollowEvent::StateRead(state)) => if state.followed != wanted {
            (FollowPhase::Finished, FollowAction::Complete(Err(ArtistFollowCommandError::StateMismatch)))
        } else {
            (FollowPhase::SyncingLocal { state }, FollowAction::SyncLocal(state))
        },
        (FollowPhase::SyncingLocal { state }, FollowEvent::LocalSynced) => (FollowPhase::Finished, FollowAction::Complete(Ok(state))),
        (_, FollowEvent::PixivFailed(c)) => (FollowPhase::Finished, FollowAction::Complete(Err(ArtistFollowCommandError::Pixiv(c)))),
        (_, FollowEvent::StorageFailed(db)) => (FollowPhase::Finished, FollowAction::Complete(Err(ArtistFollowCommandError::Storage(db)))),
        _ => (FollowPhase::Finished, FollowAction::Complete(Err(ArtistFollowCommandError::StateMismatch))),
    }
}

/// A successful answer is always the wanted state, and the local list is
/// only ever synchronized to the wanted state.
pub proof fn lemma_follow_answers_wanted_state(wanted: bool, phase: FollowPhase, event: FollowEvent)
    requires
        phase matches FollowPhase::SyncingLocal { state } ==> state.followed == wanted,
    ensures
        ({
            let (next, action) = spec_follow_step(wanted, phase, event);
            &&& (action matches FollowAction::Complete(Ok(v)) ==> v.followed == wanted)
            &&& (action matches FollowAction::SyncLocal(v) ==> v.followed == wanted)
            &&& (next matches FollowPhase::SyncingLocal { state } ==> state.followed == wanted)
        }),
{
}

/// A followed artist as the administration shows them. Times are seconds
/// since the epoch.
#[derive(Clone, Debug, PartialEq, Eq)]
pub struct FollowingAuthorView {
    pub pixiv_artist_id: i64,
    pub display_name: String,
    pub avatar_url: Option<String>,
    pub visibility: PixivFollowingVisibility,
    pub enabled: bool,
    pub refreshed_at: i64,
    pub last_collected_at: Option<i64>,
}

/// The position of the first listed artist with this id, or `NotFound`.
pub fn find_author(authors: &Vec<FollowingAuthorView>, pixiv_artist_id: i64) -> (r: Result<usize, DbError>)
    ensures
        match r {
            Ok(i) => i < authors@.len() && authors@[i as int].pixiv_artist_id == pixiv_artist_id
                && forall|k: int| 0 <= k < i ==> authors@[k].pixiv_artist_id != pixiv_artist_id,
            Err(e) => e == DbError::NotFound && forall|k: int| 0 <= k < authors@.len() ==> authors@[k].pixiv_artist_id != pixiv_artist_id,
        },
{
    let mut i: usize = 0;
    while i < authors.len()
        invariant
            i <= authors@.len(),
            forall|k: int| 0 <= k < i ==> authors@[k].pixiv_artist_id != pixiv_artist_id,
        decreases authors.len() - i,
    {
        if authors[i].pixiv_artist_id == pixiv_artist_id {
            return Ok(i);
        }
        i = i + 1;
    }
    Err(DbError::NotFound)
}

} // verus!
