//! The stream-role handshake: each freshly opened bidirectional stream is
//! bound to one of the three channels by a single discriminator byte. The
//! server accepts exactly three streams, rejecting unknown discriminators and
//! duplicate roles; the client opens them in the fixed order Event,
//! StateCommit, Action.

use vstd::prelude::*;
use crate::errors::ProtonError;
use crate::session::CloseCause;
use crate::{STREAM_ACTION, STREAM_EVENT, STREAM_STATE_COMMIT};

verus! {

/// The role a bound stream plays: one logical channel each.
#[derive(Clone, Copy, Debug, PartialEq, Eq, Structural)]
pub enum StreamRole {
    Event,
    StateCommit,
    Action,
}

/// The discriminator byte that names a role on the wire.
pub open spec fn spec_discriminator(role: StreamRole) -> u8 {
    match role {
        StreamRole::Event => STREAM_EVENT,
        StreamRole::StateCommit => STREAM_STATE_COMMIT,
        StreamRole::Action => STREAM_ACTION,
    }
}

/// The role a discriminator byte names, if any.
pub open spec fn spec_classify(d: u8) -> Option<StreamRole> {
    if d == STREAM_EVENT {
        Some(StreamRole::Event)
    } else if d == STREAM_STATE_COMMIT {
        Some(StreamRole::StateCommit)
    } else if d == STREAM_ACTION {
        Some(StreamRole::Action)
    } else {
        None
    }
}

/// The discriminator byte the opener writes for a role.
pub fn discriminator(role: StreamRole) -> (d: u8)
    ensures
        d == spec_discriminator(role),
{
    match role {
        StreamRole::Event => STREAM_EVENT,
        StreamRole::StateCommit => STREAM_STATE_COMMIT,
        StreamRole::Action => STREAM_ACTION,
    }
}

/// Classify a received discriminator byte; anything outside the three known
/// values is a protocol violation.
pub fn classify_discriminator(d: u8) -> (r: Result<StreamRole, ProtonError>)
    ensures
        spec_classify(d) matches Some(role) ==> r == Ok::<StreamRole, ProtonError>(role),
        spec_classify(d) is None ==> r == Err::<StreamRole, ProtonError>(
            ProtonError::InvalidStream,
        ),
{
    if d == STREAM_EVENT {
        Ok(StreamRole::Event)
    } else if d == STREAM_STATE_COMMIT {
        Ok(StreamRole::StateCommit)
    } else if d == STREAM_ACTION {
        Ok(StreamRole::Action)
    } else {
        Err(ProtonError::InvalidStream)
    }
}

/// Which roles a session has bound so far. The server starts with none and
/// must bind all three, each exactly once.
#[derive(Clone, Copy, Debug, PartialEq, Eq, Structural)]
pub struct HandshakeState {
    pub event_bound: bool,
    pub state_commit_bound: bool,
    pub action_bound: bool,
}

/// Whether a role is already bound in `s`.
pub open spec fn spec_role_bound(s: HandshakeState, role: StreamRole) -> bool {
    match role {
        StreamRole::Event => s.event_bound,
        StreamRole::StateCommit => s.state_commit_bound,
        StreamRole::Action => s.action_bound,
    }
}

/// `s` with `role` bound.
pub open spec fn spec_with_bound(s: HandshakeState, role: StreamRole) -> HandshakeState {
    match role {
        StreamRole::Event => (HandshakeState { event_bound: true, ..s }),
        StreamRole::StateCommit => (HandshakeState { state_commit_bound: true, ..s }),
        StreamRole::Action => (HandshakeState { action_bound: true, ..s }),
    }
}

/// What binding a discriminator does to the handshake state: a known,
/// not-yet-bound role is bound; an unknown byte or a duplicate role leaves
/// the state unchanged and is a protocol violation.
pub open spec fn spec_bind(s: HandshakeState, d: u8) -> (Result<
    StreamRole,
    ProtonError,
>, HandshakeState) {
    match spec_classify(d) {
        Some(role) => if spec_role_bound(s, role) {
            (Err(ProtonError::InvalidStream), s)
        } else {
            (Ok(role), spec_with_bound(s, role))
        },
        None => (Err(ProtonError::InvalidStream), s),
    }
}

/// Whether all three roles are bound.
pub open spec fn spec_complete(s: HandshakeState) -> bool {
    s.event_bound && s.state_commit_bound && s.action_bound
}

impl HandshakeState {
    /// A fresh handshake: no role bound yet.
    pub fn new() -> (s: Self)
        ensures
            !s.event_bound,
            !s.state_commit_bound,
            !s.action_bound,
    {
        HandshakeState { event_bound: false, state_commit_bound: false, action_bound: false }
    }

    /// Bind the stream that announced discriminator `d` to its role.
    /// Rejected with `InvalidStream`, leaving the state unchanged, when `d`
    /// is outside the three known values or its role is already bound.
    pub fn bind_stream(&mut self, d: u8) -> (r: Result<StreamRole, ProtonError>)
        ensures
            (r, *final(self)) == spec_bind(*old(self), d),
    {
        match classify_discriminator(d) {
            Ok(role) => {
                let already = match role {
                    StreamRole::Event => self.event_bound,
                    StreamRole::StateCommit => self.state_commit_bound,
                    StreamRole::Action => self.action_bound,
                };
                if already {
                    Err(ProtonError::InvalidStream)
                } else {
                    match role {
                        StreamRole::Event => {
                            self.event_bound = true;
                        },
                        StreamRole::StateCommit => {
                            self.state_commit_bound = true;
                        },
                        StreamRole::Action => {
                            self.action_bound = true;
                        },
                    }
                    Ok(role)
                }
            },
            Err(e) => Err(e),
        }
    }

    /// Whether the handshake is complete: all three roles bound.
    pub fn is_complete(&self) -> (b: bool)
        ensures
            b == spec_complete(*self),
    {
        self.event_bound && self.state_commit_bound && self.action_bound
    }
}

/// What the transport reported while the server was waiting for one more
/// stream of the handshake.
#[derive(Clone, Copy, Debug, PartialEq, Eq, Structural)]
pub enum HandshakeEvent {
    /// A stream arrived and announced this discriminator byte.
    Discriminator(u8),
    /// A stream arrived but reading its discriminator failed.
    ReadFailed,
    /// A stream arrived but its discriminator did not arrive in time.
    ReadTimedOut,
    /// Accepting the next stream failed at the transport.
    AcceptFailed,
    /// No stream arrived within the accept deadline.
    AcceptTimedOut,
}

/// What the server does after one handshake event.
#[derive(Clone, Copy, Debug, PartialEq, Eq, Structural)]
pub enum HandshakeStep {
    /// The stream is bound to this role; keep waiting for more streams.
    Continue(StreamRole),
    /// The stream is bound to this role, and all three are now bound; start
    /// the channel loops.
    Complete(StreamRole),
    /// Tear the connection down: close with the cause's code and reason and
    /// report the error.
    Abort(CloseCause, ProtonError),
}

/// The server's decision for one handshake event in state `s`.
pub open spec fn spec_handshake_step(s: HandshakeState, ev: HandshakeEvent) -> (HandshakeStep, HandshakeState) {
    match ev {
        HandshakeEvent::Discriminator(d) => {
            let (r, s2) = spec_bind(s, d);
            match r {
                Ok(role) => if spec_complete(s2) {
                    (HandshakeStep::Complete(role), s2)
                } else {
                    (HandshakeStep::Continue(role), s2)
                },
                Err(e) => (HandshakeStep::Abort(CloseCause::SetupError, e), s2),
            }
        },
        HandshakeEvent::ReadFailed => (
            HandshakeStep::Abort(CloseCause::SetupError, ProtonError::ConnectionError),
            s,
        ),
        HandshakeEvent::ReadTimedOut => (
            HandshakeStep::Abort(CloseCause::SetupError, ProtonError::Timeout),
            s,
        ),
        HandshakeEvent::AcceptFailed => (
            HandshakeStep::Abort(CloseCause::AcceptError, ProtonError::ConnectionError),
            s,
        ),
        HandshakeEvent::AcceptTimedOut => (
            HandshakeStep::Abort(CloseCause::SetupTimeout, ProtonError::Timeout),
            s,
        ),
    }
}

impl HandshakeState {
    /// Advance the server handshake by one transport event: bind the stream a
    /// discriminator arrived on, finish once all three roles are bound, and
    /// abort — with the close cause that picks the close code — on a bad
    /// discriminator, a duplicate role, a transport failure, or a deadline.
    pub fn step(&mut self, ev: HandshakeEvent) -> (r: HandshakeStep)
        ensures
            (r, *final(self)) == spec_handshake_step(*old(self), ev),
    {
        match ev {
            HandshakeEvent::Discriminator(d) => {
                match self.bind_stream(d) {
                    Ok(role) => {
                        if self.is_complete() {
                            HandshakeStep::Complete(role)
                        } else {
                            HandshakeStep::Continue(role)
                        }
                    },
                    Err(e) => HandshakeStep::Abort(CloseCause::SetupError, e),
                }
            },
            HandshakeEvent::ReadFailed => HandshakeStep::Abort(
                CloseCause::SetupError,
                ProtonError::ConnectionError,
            ),
            HandshakeEvent::ReadTimedOut => HandshakeStep::Abort(
                CloseCause::SetupError,
                ProtonError::Timeout,
            ),
            HandshakeEvent::AcceptFailed => HandshakeStep::Abort(
                CloseCause::AcceptError,
                ProtonError::ConnectionError,
            ),
            HandshakeEvent::AcceptTimedOut => HandshakeStep::Abort(
                CloseCause::SetupTimeout,
                ProtonError::Timeout,
            ),
        }
    }
}

/// The fixed order in which the client opens and announces its streams:
/// Event, then StateCommit, then Action.
pub fn client_stream_order() -> (order: Vec<u8>)
    ensures
        order@ =~= seq![STREAM_EVENT, STREAM_STATE_COMMIT, STREAM_ACTION],
{
    let mut order: Vec<u8> = Vec::new();
    order.push(STREAM_EVENT);
    order.push(STREAM_STATE_COMMIT);
    order.push(STREAM_ACTION);
    order
}

/// Law: the client's fixed opening order completes a fresh server handshake —
/// each of the three binds is accepted, and after the third the handshake is
/// complete.
pub proof fn lemma_client_order_completes(s0: HandshakeState)
    requires
        !s0.event_bound,
        !s0.state_commit_bound,
        !s0.action_bound,
    ensures
        ({
            let (r1, s1) = spec_handshake_step(s0, HandshakeEvent::Discriminator(STREAM_EVENT));
            let (r2, s2) = spec_handshake_step(
                s1,
                HandshakeEvent::Discriminator(STREAM_STATE_COMMIT),
            );
            let (r3, s3) = spec_handshake_step(s2, HandshakeEvent::Discriminator(STREAM_ACTION));
            r1 == HandshakeStep::Continue(StreamRole::Event) && r2 == HandshakeStep::Continue(
                StreamRole::StateCommit,
            ) && r3 == HandshakeStep::Complete(StreamRole::Action) && spec_complete(s3)
        }),
{
}

} // verus!
