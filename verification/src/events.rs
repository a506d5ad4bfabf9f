//! The live event stream: where a reconnecting client resumes, what it is
//! sent first, and how the cursor follows the events delivered.

use vstd::prelude::*;

verus! {

/// An event sent to a client: an application event with its id, or a
/// request to reload everything up to `latest_event_id`.
#[derive(Clone, Debug, PartialEq, Eq)]
pub enum StreamEvent<E> {
    AppEvent { id: i64, event: E },
    SnapshotRefresh { latest_event_id: i64 },
}

pub open spec fn spec_replay_cursor(last_replayed: Option<i64>, latest_event_id: Option<i64>, last_event_id: Option<i64>) -> i64 {
    match last_replayed {
        Some(id) => id,
        None => match latest_event_id {
            Some(id) => id,
            None => match last_event_id {
                Some(id) => id,
                None => 0,
            },
        },
    }
}

/// Where the stream continues after the replay: the last replayed event,
/// else the newest event there is, else where the client left off, else
/// the beginning.
pub fn replay_cursor(last_replayed: Option<i64>, latest_event_id: Option<i64>, last_event_id: Option<i64>) -> (c: i64)
    ensures
        c == spec_replay_cursor(last_replayed, latest_event_id, last_event_id),
{
    match last_replayed {
        Some(id) => id,
        None => match latest_event_id {
            Some(id) => id,
            None => match last_event_id {
                Some(id) => id,
                None => 0,
            },
        },
    }
}

/// An opened stream: its cursor and the events still to send.
pub struct OpenedEventStream<E> {
    pub cursor: i64,
    pub pending: Vec<StreamEvent<E>>,
}

impl<E> OpenedEventStream<E> {
    /// Opens a stream from a replay window. A client too far behind gets a
    /// single snapshot refresh; otherwise it gets the replayed events in
    /// order.
    pub fn open(replayed: Vec<StreamEvent<E>>, last_replayed: Option<i64>, latest_event_id: Option<i64>, last_event_id: Option<i64>, snapshot_refresh: bool) -> (s: Self)
        ensures
            s.cursor == spec_replay_cursor(last_replayed, latest_event_id, last_event_id),
            snapshot_refresh ==> s.pending@ == seq![StreamEvent::<E>::SnapshotRefresh {
                latest_event_id: match latest_event_id { Some(id) => id, None => 0 },
            }],
            !snapshot_refresh ==> s.pending@ == replayed@,
    {
        let cursor = replay_cursor(last_replayed, latest_event_id, last_event_id);
        if snapshot_refresh {
            let latest = match latest_event_id {
                Some(id) => id,
                None => 0,
            };
            let mut pending: Vec<StreamEvent<E>> = Vec::new();
            pending.push(StreamEvent::SnapshotRefresh { latest_event_id: latest });
            OpenedEventStream { cursor, pending }
        } else {
            OpenedEventStream { cursor, pending: replayed }
        }
    }

    /// Sends the next pending event, if any; an application event moves the
    /// cursor to its id.
    pub fn next_pending(&mut self) -> (e: Option<StreamEvent<E>>)
        ensures
            old(self).pending@.len() == 0 ==> e is None && *final(self) == *old(self),
            old(self).pending@.len() > 0 ==> (
                e == Some(old(self).pending@[0])
                && final(self).pending@ == old(self).pending@.drop_first()
                && final(self).cursor == (match old(self).pending@[0] {
                    StreamEvent::AppEvent { id, .. } => id,
                    StreamEvent::SnapshotRefresh { .. } => old(self).cursor,
                })),
    {
        if self.pending.len() == 0 {
            return None;
        }
        let event = self.pending.remove(0);
        match &event {
            StreamEvent::AppEvent { id, .. } => {
                self.cursor = *id;
            },
            StreamEvent::SnapshotRefresh { .. } => {},
        }
        proof {
            assert(self.pending@ =~= old(self).pending@.drop_first());
        }
        Some(event)
    }

    /// Queues the events read after the cursor.
    pub fn extend(&mut self, events: Vec<StreamEvent<E>>)
        ensures
            final(self).cursor == old(self).cursor,
            final(self).pending@ == old(self).pending@ + events@,
    {
        let mut events = events;
        self.pending.append(&mut events);
    }
}

/// What the wake-up source of a stream reported.
#[derive(Clone, Copy, Debug, PartialEq, Eq, Structural)]
pub enum WakeResult {
    Notified,
    Failed,
    Closed,
    /// No wake-up came within the poll interval.
    TimedOut,
}

/// What to do before reading new events: after a failed wake-up wait one
/// poll interval, after a closed wake-up source poll from then on.
#[derive(Clone, Copy, Debug, PartialEq, Eq, Structural)]
pub struct WakeHandling {
    pub sleep_first: bool,
    pub drop_wake_source: bool,
}

pub fn wake_handling(wake: WakeResult) -> (h: WakeHandling)
    ensures
        h.sleep_first == (wake == WakeResult::Failed),
        h.drop_wake_source == (wake == WakeResult::Closed),
{
    match wake {
        WakeResult::Failed => WakeHandling { sleep_first: true, drop_wake_source: false },
        WakeResult::Closed => WakeHandling { sleep_first: false, drop_wake_source: true },
        _ => WakeHandling { sleep_first: false, drop_wake_source: false },
    }
}

} // verus!
