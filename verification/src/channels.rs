//! The three per-channel request/response state machines.
//!
//! Every channel loop has the same shape — read a word under a deadline,
//! validate or transform it, write a word under a deadline — and differs only
//! in the transform: Event acknowledges strictly increasing ids, StateCommit
//! answers `id + 2`, Action answers a counter that starts at 0 and grows by
//! one per request.

use vstd::prelude::*;
use crate::errors::ProtonError;

verus! {

/// What one timed channel read or write produced.
#[derive(Clone, Copy, Debug, PartialEq, Eq, Structural)]
pub enum IoEvent {
    /// The word that arrived, or that was written, in time.
    Value(u32),
    /// The transport failed.
    Failed,
    /// The deadline expired first.
    TimedOut,
}

/// The typed error a failed channel read or write terminates its loop with,
/// or nothing when the operation succeeded.
pub open spec fn spec_channel_io_error(ev: IoEvent) -> Option<ProtonError> {
    match ev {
        IoEvent::Value(_) => None,
        IoEvent::Failed => Some(ProtonError::ConnectionError),
        IoEvent::TimedOut => Some(ProtonError::Timeout),
    }
}

/// Classify one timed channel read or write: a transport failure terminates
/// the loop with `ConnectionError`, an expired deadline with `Timeout`, and a
/// value continues it.
pub fn channel_io_error(ev: IoEvent) -> (r: Option<ProtonError>)
    ensures
        r == spec_channel_io_error(ev),
{
    match ev {
        IoEvent::Value(_) => None,
        IoEvent::Failed => Some(ProtonError::ConnectionError),
        IoEvent::TimedOut => Some(ProtonError::Timeout),
    }
}

/// The server side of the Event channel: the last event id it accepted.
#[derive(Clone, Copy, Debug, PartialEq, Eq, Structural)]
pub struct EventChannel {
    pub last_event_id: u32,
}

/// What one event write does to the channel: an id strictly greater than the
/// last accepted one is accepted and echoed back as the acknowledgment; any
/// other id is a broken monotonicity invariant, leaving the channel unchanged.
pub open spec fn spec_accept_event(s: EventChannel, event_id: u32) -> (Result<
    u32,
    ProtonError,
>, EventChannel) {
    if event_id > s.last_event_id {
        (Ok(event_id), EventChannel { last_event_id: event_id })
    } else {
        (Err(ProtonError::InvalidStream), s)
    }
}

impl EventChannel {
    /// A fresh session's event channel: no id accepted yet.
    pub fn new() -> (s: Self)
        ensures
            s.last_event_id == 0,
    {
        EventChannel { last_event_id: 0 }
    }

    /// Accept one event id. The id must be strictly greater than the last
    /// accepted one; then it is recorded and returned as the acknowledgment.
    /// An id less than or equal to the last accepted one is a protocol
    /// violation: `InvalidStream`, channel unchanged, session torn down.
    pub fn accept_event(&mut self, event_id: u32) -> (r: Result<u32, ProtonError>)
        ensures
            (r, *final(self)) == spec_accept_event(*old(self), event_id),
    {
        if event_id > self.last_event_id {
            self.last_event_id = event_id;
            Ok(event_id)
        } else {
            Err(ProtonError::InvalidStream)
        }
    }
}

/// Run a whole sequence of event writes through the channel: the final
/// channel state when every write is accepted, or nothing if one is rejected.
pub open spec fn spec_run_events(s: EventChannel, ids: Seq<u32>) -> Option<EventChannel>
    decreases ids.len(),
{
    if ids.len() == 0 {
        Some(s)
    } else if ids[0] > s.last_event_id {
        spec_run_events(EventChannel { last_event_id: ids[0] }, ids.skip(1))
    } else {
        None
    }
}

/// Whether a sequence of event ids is strictly increasing.
pub open spec fn strictly_increasing(ids: Seq<u32>) -> bool {
    forall|i: int, j: int| 0 <= i < j < ids.len() ==> ids[i] < ids[j]
}

/// Law: monotonicity. A strictly increasing sequence of event ids whose first
/// id exceeds the channel's last accepted id is accepted in full — each write
/// is acknowledged with the id it sent (the ensures of `accept_event`), and
/// the channel ends at the last id. The first id at or below the last
/// accepted one is rejected with `InvalidStream` (the same ensures).
pub proof fn lemma_event_monotonicity(s: EventChannel, ids: Seq<u32>)
    requires
        strictly_increasing(ids),
        ids.len() > 0 ==> ids[0] > s.last_event_id,
    ensures
        ids.len() == 0 ==> spec_run_events(s, ids) == Some(s),
        ids.len() > 0 ==> spec_run_events(s, ids) == Some(
            EventChannel { last_event_id: ids.last() },
        ),
    decreases ids.len(),
{
    if ids.len() > 0 {
        let s2 = EventChannel { last_event_id: ids[0] };
        let rest = ids.skip(1);
        assert(forall|i: int, j: int|
            0 <= i < j < rest.len() ==> rest[i] == ids[i + 1] && rest[j] == ids[j + 1]);
        assert(strictly_increasing(rest));
        if rest.len() > 0 {
            assert(rest[0] == ids[1]);
            assert(rest.last() == ids.last());
        }
        lemma_event_monotonicity(s2, rest);
    }
}

/// The fixed StateCommit transform: every commit id is answered with the id
/// plus two. No state is involved.
pub fn commit_response(commit_id: u32) -> (r: u32)
    requires
        commit_id + 2 <= u32::MAX,
    ensures
        r == commit_id + 2,
{
    commit_id + 2
}

/// The server side of the Action channel: the counter its next response
/// carries.
#[derive(Clone, Copy, Debug, PartialEq, Eq, Structural)]
pub struct ActionChannel {
    pub counter: u32,
}

/// What one action request does: the current counter is the response, and the
/// counter grows by one. The request's payload plays no part.
pub open spec fn spec_respond_action(s: ActionChannel) -> (u32, ActionChannel) {
    ((s.counter), (ActionChannel { counter: (s.counter + 1) as u32 }))
}

impl ActionChannel {
    /// A fresh session's action channel: the first response will be 0.
    pub fn new() -> (s: Self)
        ensures
            s.counter == 0,
    {
        ActionChannel { counter: 0 }
    }

    /// Answer one action request. The response is the current counter,
    /// whatever the request's payload was; the counter then grows by one.
    pub fn respond(&mut self, _request_id: u32) -> (r: u32)
        requires
            old(self).counter < u32::MAX,
        ensures
            r == old(self).counter,
            final(self).counter == old(self).counter + 1,
            (r, *final(self)) == spec_respond_action(*old(self)),
    {
        let r = self.counter;
        self.counter = self.counter + 1;
        r
    }
}

/// The responses a sequence of action requests draws from the channel; only
/// the number of requests matters, never their payloads.
pub open spec fn spec_run_actions(s: ActionChannel, requests: Seq<u32>) -> Seq<u32>
    decreases requests.len(),
{
    if requests.len() == 0 {
        Seq::empty()
    } else {
        seq![s.counter] + spec_run_actions(
            ActionChannel { counter: (s.counter + 1) as u32 },
            requests.skip(1),
        )
    }
}

/// Law: action sequencing. N consecutive requests on one session are answered
/// `counter, counter + 1, …, counter + N - 1` — from a fresh channel,
/// `0, 1, …, N - 1` — regardless of what the requests carried.
pub proof fn lemma_action_sequencing(s: ActionChannel, requests: Seq<u32>)
    requires
        s.counter + requests.len() <= u32::MAX,
    ensures
        spec_run_actions(s, requests) =~= Seq::new(requests.len(), |i: int| (s.counter + i) as u32),
    decreases requests.len(),
{
    if requests.len() > 0 {
        let s2 = ActionChannel { counter: (s.counter + 1) as u32 };
        lemma_action_sequencing(s2, requests.skip(1));
    }
}

} // verus!
