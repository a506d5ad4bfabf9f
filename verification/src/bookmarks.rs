//! Writing bookmark changes back to Pixiv: whether the account allows it,
//! which Pixiv calls an add or a remove takes, how the local bookmark is
//! updated and what is recorded about the attempt.

use vstd::prelude::*;
use crate::domain::{DbError, PixivErrorClass, pixiv_error_class_name};
use crate::pixiv_accounts::PixivAccountContextError;

verus! {

/// How a writeback attempt ended.
#[derive(Clone, Copy, Debug, PartialEq, Eq, Structural)]
pub enum BookmarkWritebackStatus {
    Disabled,
    Succeeded,
    Failed,
}

pub open spec fn writeback_status_name(status: BookmarkWritebackStatus) -> Seq<char> {
    match status {
        BookmarkWritebackStatus::Disabled => "disabled"@,
        BookmarkWritebackStatus::Succeeded => "succeeded"@,
        BookmarkWritebackStatus::Failed => "failed"@,
    }
}

impl BookmarkWritebackStatus {
    /// The status as recorded with the attempt.
    pub fn as_str(self) -> (s: &'static str)
        ensures
            s@ == writeback_status_name(self),
    {
        match self {
            BookmarkWritebackStatus::Disabled => "disabled",
            BookmarkWritebackStatus::Succeeded => "succeeded",
            BookmarkWritebackStatus::Failed => "failed",
        }
    }
}

/// The answer to a writeback request.
#[derive(Clone, Debug, PartialEq, Eq)]
pub struct BookmarkWritebackResult {
    pub status: BookmarkWritebackStatus,
    pub bookmark_id: Option<i64>,
    pub error_class: Option<String>,
}

impl BookmarkWritebackResult {
    /// The answer when writeback is switched off for the account.
    pub fn disabled() -> (r: Self)
        ensures
            r.status == BookmarkWritebackStatus::Disabled,
            r.bookmark_id is None,
            r.error_class is None,
    {
        BookmarkWritebackResult { status: BookmarkWritebackStatus::Disabled, bookmark_id: None, error_class: None }
    }
}

/// Adding or removing a bookmark.
#[derive(Clone, Copy, Debug, PartialEq, Eq, Structural)]
pub enum BookmarkWritebackOperation {
    Add,
    Remove,
}

pub open spec fn writeback_operation_name(op: BookmarkWritebackOperation) -> Seq<char> {
    match op {
        BookmarkWritebackOperation::Add => "add"@,
        BookmarkWritebackOperation::Remove => "remove"@,
    }
}

impl BookmarkWritebackOperation {
    pub fn as_str(self) -> (s: &'static str)
        ensures
            s@ == writeback_operation_name(self),
    {
        match self {
            BookmarkWritebackOperation::Add => "add",
            BookmarkWritebackOperation::Remove => "remove",
        }
    }
}

/// Why a writeback request failed as a whole (a failed Pixiv call is not
/// such a failure: it is recorded and answered with `Failed`).
#[derive(Clone, Debug, PartialEq, Eq)]
pub enum BookmarkWritebackError {
    Storage(DbError),
    Context(PixivAccountContextError),
    AccountMismatch,
}

/// The command port used when writeback is switched off everywhere: every
/// request is answered as disabled.
#[derive(Clone, Copy, Debug, Default)]
pub struct DisabledBookmarkCommandPort;

impl DisabledBookmarkCommandPort {
    pub fn add(&self) -> (r: Result<BookmarkWritebackResult, BookmarkWritebackError>)
        ensures
            r matches Ok(res) && res.status == BookmarkWritebackStatus::Disabled && res.bookmark_id is None
                && res.error_class is None,
    {
        Ok(BookmarkWritebackResult::disabled())
    }

    pub fn remove(&self) -> (r: Result<BookmarkWritebackResult, BookmarkWritebackError>)
        ensures
            r matches Ok(res) && res.status == BookmarkWritebackStatus::Disabled && res.bookmark_id is None
                && res.error_class is None,
    {
        Ok(BookmarkWritebackResult::disabled())
    }
}

/// What to do with a request once the account is loaded.
#[derive(Clone, Copy, Debug, PartialEq, Eq, Structural)]
pub enum WritebackGate {
    /// Record the attempt as disabled and answer `Disabled`.
    RecordDisabled,
    /// The request context belongs to another Pixiv user.
    Reject,
    Proceed,
}

pub open spec fn spec_writeback_gate(writeback_enabled: bool, context_user_id: i64, account_user_id: i64) -> WritebackGate {
    if !writeback_enabled {
        WritebackGate::RecordDisabled
    } else if context_user_id != account_user_id {
        WritebackGate::Reject
    } else {
        WritebackGate::Proceed
    }
}

/// A disabled account only records the attempt; otherwise the request's
/// Pixiv session must belong to the account.
pub fn writeback_gate(writeback_enabled: bool, context_user_id: i64, account_user_id: i64) -> (g: WritebackGate)
    ensures
        g == spec_writeback_gate(writeback_enabled, context_user_id, account_user_id),
{
    if !writeback_enabled {
        WritebackGate::RecordDisabled
    } else if context_user_id != account_user_id {
        WritebackGate::Reject
    } else {
        WritebackGate::Proceed
    }
}

/// The outcome that is both recorded and answered.
#[derive(Clone, Copy, Debug, PartialEq, Eq, Structural)]
pub struct WritebackOutcome {
    pub status: BookmarkWritebackStatus,
    pub bookmark_id: Option<i64>,
    pub error: Option<PixivErrorClass>,
}

impl WritebackOutcome {
    /// The answer for this outcome; a failure carries its Pixiv error
    /// class by name.
    pub fn into_result(self) -> (r: BookmarkWritebackResult)
        ensures
            r.status == self.status,
            r.bookmark_id == self.bookmark_id,
            r.error_class is None <==> self.error is None,
            self.error matches Some(c) ==> r.error_class matches Some(s) && s@ == pixiv_error_class_name(c),
    {
        let error_class = match self.error {
            Some(c) => Some(String::from_str(c.as_str())),
            None => None,
        };
        BookmarkWritebackResult { status: self.status, bookmark_id: self.bookmark_id, error_class }
    }
}

/// Where an enabled writeback stands.
#[derive(Clone, Copy, Debug, PartialEq, Eq, Structural)]
pub enum WritebackPhase {
    FindingLocalBookmark,
    Adding,
    LookingUpRemoteBookmark,
    Deleting,
    MarkingLocal { bookmark_id: Option<i64> },
    Recording { outcome: WritebackOutcome },
    Finished,
}

/// What the last call reported.
#[derive(Clone, Debug, PartialEq, Eq)]
pub enum WritebackEvent {
    LocalBookmark(Option<i64>),
    Added { bookmark_id: Option<i64> },
    RemoteBookmark(Option<i64>),
    Deleted { bookmark_id: Option<i64> },
    PixivFailed(PixivErrorClass),
    LocalMarked,
    Recorded,
    StorageFailed(DbError),
}

/// The next call to make, or the answer.
#[derive(Debug, PartialEq, Eq)]
pub enum WritebackAction {
    /// The account's active local bookmark of the work.
    FindActiveBookmark,
    AddBookmark,
    /// The work's detail, for the bookmark Pixiv holds.
    FetchWorkDetail,
    DeleteBookmark { bookmark_id: i64 },
    MarkAdded { bookmark_id: Option<i64> },
    MarkRemoved,
    Record(WritebackOutcome),
    Complete(Result<WritebackOutcome, BookmarkWritebackError>),
}

pub open spec fn spec_start_writeback(op: BookmarkWritebackOperation) -> (WritebackPhase, WritebackAction) {
    match op {
        BookmarkWritebackOperation::Add => (WritebackPhase::Adding, WritebackAction::AddBookmark),
        BookmarkWritebackOperation::Remove => (WritebackPhase::FindingLocalBookmark, WritebackAction::FindActiveBookmark),
    }
}

/// An add goes to Pixiv at once; a remove first looks for the local
/// bookmark id.
pub fn start_writeback(op: BookmarkWritebackOperation) -> (r: (WritebackPhase, WritebackAction))
    ensures
        r == spec_start_writeback(op),
{
    match op {
        BookmarkWritebackOperation::Add => (WritebackPhase::Adding, WritebackAction::AddBookmark),
        BookmarkWritebackOperation::Remove => (WritebackPhase::FindingLocalBookmark, WritebackAction::FindActiveBookmark),
    }
}

pub open spec fn failed_outcome(class: PixivErrorClass) -> WritebackOutcome {
    WritebackOutcome { status: BookmarkWritebackStatus::Failed, bookmark_id: None, error: Some(class) }
}

pub open spec fn succeeded_outcome(bookmark_id: Option<i64>) -> WritebackOutcome {
    WritebackOutcome { status: BookmarkWritebackStatus::Succeeded, bookmark_id, error: None }
}

pub open spec fn record_failure(class: PixivErrorClass) -> (WritebackPhase, WritebackAction) {
    (WritebackPhase::Recording { outcome: failed_outcome(class) }, WritebackAction::Record(failed_outcome(class)))
}

pub open spec fn spec_writeback_step(phase: WritebackPhase, event: WritebackEvent) -> (WritebackPhase, WritebackAction) {
    match (phase, event) {
        (WritebackPhase::FindingLocalBookmark, WritebackEvent::LocalBookmark(found)) => match found {
            Some(id) => (WritebackPhase::Deleting, WritebackAction::DeleteBookmark { bookmark_id: id }),
            None => (WritebackPhase::LookingUpRemoteBookmark, WritebackAction::FetchWorkDetail),
        },
        (WritebackPhase::Adding, WritebackEvent::Added { bookmark_id }) =>
            (WritebackPhase::MarkingLocal { bookmark_id }, WritebackAction::MarkAdded { bookmark_id }),
        (WritebackPhase::LookingUpRemoteBookmark, WritebackEvent::RemoteBookmark(found)) => match found {
            Some(id) => (WritebackPhase::Deleting, WritebackAction::DeleteBookmark { bookmark_id: id }),
            None => (WritebackPhase::MarkingLocal { bookmark_id: None }, WritebackAction::MarkRemoved),
        },
        (WritebackPhase::Deleting, WritebackEvent::Deleted { bookmark_id }) =>
            (WritebackPhase::MarkingLocal { bookmark_id }, WritebackAction::MarkRemoved),
        (WritebackPhase::Deleting, WritebackEvent::PixivFailed(class)) => if class == PixivErrorClass::HiddenOrNotFound {
            (WritebackPhase::MarkingLocal { bookmark_id: None }, WritebackAction::MarkRemoved)
        } else {
            record_failure(class)
        },
        (WritebackPhase::Adding, WritebackEvent::PixivFailed(class)) => record_failure(class),
        (WritebackPhase::LookingUpRemoteBookmark, WritebackEvent::PixivFailed(class)) => record_failure(class),
        (WritebackPhase::MarkingLocal { bookmark_id }, WritebackEvent::LocalMarked) =>
            (WritebackPhase::Recording { outcome: succeeded_outcome(bookmark_id) }, WritebackAction::Record(succeeded_outcome(bookmark_id))),
        (WritebackPhase::Recording { outcome }, WritebackEvent::Recorded) =>
            (WritebackPhase::Finished, WritebackAction::Complete(Ok(outcome))),
        (_, WritebackEvent::StorageFailed(db)) =>
            (WritebackPhase::Finished, WritebackAction::Complete(Err(BookmarkWritebackError::Storage(db)))),
        _ => (WritebackPhase::Finished, WritebackAction::Complete(Err(BookmarkWritebackError::AccountMismatch))),
    }
}

fn failure_step(class: PixivErrorClass) -> (r: (WritebackPhase, WritebackAction))
    ensures
        r == record_failure(class),
{
    let outcome = WritebackOutcome { status: BookmarkWritebackStatus::Failed, bookmark_id: None, error: Some(class) };
    (WritebackPhase::Recording { outcome }, WritebackAction::Record(outcome))
}

/// One decision of an enabled writeback. A remove deletes the bookmark id
/// known locally, or else the one Pixiv reports for the work; a work Pixiv
/// holds no bookmark of, or whose bookmark is already gone, counts as
/// removed. Only after Pixiv accepted the change is the local bookmark
/// updated; every attempt that reached Pixiv is recorded, as succeeded or
/// as failed with the Pixiv error class, and the recorded outcome is the
/// answer. A storage failure ends the request with that failure.
pub fn writeback_step(phase: WritebackPhase, event: WritebackEvent) -> (next: (WritebackPhase, WritebackAction))
    ensures
        next == spec_writeback_step(phase, event),
{
    match (phase, event) {
        (WritebackPhase::FindingLocalBookmark, WritebackEvent::LocalBookmark(found)) => match found {
            Some(id) => (WritebackPhase::Deleting, WritebackAction::DeleteBookmark { bookmark_id: id }),
            None => (WritebackPhase::LookingUpRemoteBookmark, WritebackAction::FetchWorkDetail),
        },
        (WritebackPhase::Adding, WritebackEvent::Added { bookmark_id }) =>
            (WritebackPhase::MarkingLocal { bookmark_id }, WritebackAction::MarkAdded { bookmark_id }),
        (WritebackPhase::LookingUpRemoteBookmark, WritebackEvent::RemoteBookmark(found)) => match found {
            Some(id) => (WritebackPhase::Deleting, WritebackAction::DeleteBookmark { bookmark_id: id }),
            None => (WritebackPhase::MarkingLocal { bookmark_id: None }, WritebackAction::MarkRemoved),
        },
        (WritebackPhase::Deleting, WritebackEvent::Deleted { bookmark_id }) =>
            (WritebackPhase::MarkingLocal { bookmark_id }, WritebackAction::MarkRemoved),
        (WritebackPhase::Deleting, WritebackEvent::PixivFailed(class)) => if class == PixivErrorClass::HiddenOrNotFound {
            (WritebackPhase::MarkingLocal { bookmark_id: None }, WritebackAction::MarkRemoved)
        } else {
            failure_step(class)
        },
        (WritebackPhase::Adding, WritebackEvent::PixivFailed(class)) => failure_step(class),
        (WritebackPhase::LookingUpRemoteBookmark, WritebackEvent::PixivFailed(class)) => failure_step(class),
        (WritebackPhase::MarkingLocal { bookmark_id }, WritebackEvent::LocalMarked) => {
            let outcome = WritebackOutcome { status: BookmarkWritebackStatus::Succeeded, bookmark_id, error: None };
            (WritebackPhase::Recording { outcome }, WritebackAction::Record(outcome))
        },
        (WritebackPhase::Recording { outcome }, WritebackEvent::Recorded) =>
            (WritebackPhase::Finished, WritebackAction::Complete(Ok(outcome))),
        (_, WritebackEvent::StorageFailed(db)) =>
            (WritebackPhase::Finished, WritebackAction::Complete(Err(BookmarkWritebackError::Storage(db)))),
        _ => (WritebackPhase::Finished, WritebackAction::Complete(Err(BookmarkWritebackError::AccountMismatch))),
    }
}

/// The answer is the recorded outcome: a writeback answers `Ok` only from
/// the recording phase, once the record is stored, with the outcome that
/// was recorded; a succeeded outcome carries no error class and a failed
/// one the class of the Pixiv failure.
pub proof fn lemma_answer_is_recorded(phase: WritebackPhase, event: WritebackEvent)
    ensures
        ({
            let (next, action) = spec_writeback_step(phase, event);
            action matches WritebackAction::Complete(Ok(o)) ==> phase == (WritebackPhase::Recording { outcome: o })
                && event == WritebackEvent::Recorded
        }),
        ({
            let (next, action) = spec_writeback_step(phase, event);
            action matches WritebackAction::Record(o) ==> next == (WritebackPhase::Recording { outcome: o }) && (
                (o.status == BookmarkWritebackStatus::Succeeded && o.error is None)
                || (o.status == BookmarkWritebackStatus::Failed && o.error is Some && o.bookmark_id is None))
        }),
{
}

/// The local bookmark changes only after Pixiv accepted the change: a local
/// update is asked for only on Pixiv's answer to an add, a delete, or a
/// detail that shows no bookmark, or when the bookmark was already gone.
pub proof fn lemma_local_follows_remote(phase: WritebackPhase, event: WritebackEvent)
    ensures
        ({
            let (next, action) = spec_writeback_step(phase, event);
            (action is MarkAdded || action is MarkRemoved) ==> (
                (phase == WritebackPhase::Adding && event is Added)
                || (phase == WritebackPhase::Deleting && (event is Deleted
                    || event == WritebackEvent::PixivFailed(PixivErrorClass::HiddenOrNotFound)))
                || (phase == WritebackPhase::LookingUpRemoteBookmark && event == WritebackEvent::RemoteBookmark(None)))
        }),
        ({
            let (next, action) = spec_writeback_step(phase, event);
            action is MarkAdded ==> phase == WritebackPhase::Adding
        }),
{
}

/// The events that the call made in a phase can report.
pub open spec fn writeback_event_expected(phase: WritebackPhase, event: WritebackEvent) -> bool {
    match phase {
        WritebackPhase::FindingLocalBookmark => event is LocalBookmark || event is StorageFailed,
        WritebackPhase::Adding => event is Added || event is PixivFailed,
        WritebackPhase::LookingUpRemoteBookmark => event is RemoteBookmark || event is PixivFailed,
        WritebackPhase::Deleting => event is Deleted || event is PixivFailed,
        WritebackPhase::MarkingLocal { .. } => event == WritebackEvent::LocalMarked || event is StorageFailed,
        WritebackPhase::Recording { .. } => event == WritebackEvent::Recorded || event is StorageFailed,
        WritebackPhase::Finished => false,
    }
}

/// On every event its call can report, a writeback that was started never
/// answers an account mismatch (that answer is `writeback_gate`'s, before
/// it starts), and every Pixiv failure leads to a record of it, or
/// to the local removal when the bookmark was already gone.
pub proof fn lemma_writeback_answers_expected_events(phase: WritebackPhase, event: WritebackEvent)
    requires
        writeback_event_expected(phase, event),
    ensures
        ({
            let (next, action) = spec_writeback_step(phase, event);
            &&& action != WritebackAction::Complete(Err(BookmarkWritebackError::AccountMismatch))
            &&& (event is PixivFailed ==> (action == WritebackAction::Record(failed_outcome(event->PixivFailed_0))
                || (phase == WritebackPhase::Deleting && event->PixivFailed_0 == PixivErrorClass::HiddenOrNotFound
                    && action == WritebackAction::MarkRemoved)))
            &&& (event is StorageFailed ==> action == WritebackAction::Complete(Err(BookmarkWritebackError::Storage(event->StorageFailed_0))))
        }),
{
}

} // verus!
