//! Session outcome and close-code selection, and the client session's close
//! discipline.
//!
//! A connection session runs the three channel loops concurrently and races
//! them against the transport's closed notification; whichever finishes first
//! decides the outcome, and the outcome picks a numeric close code with a
//! human-readable reason.

use vstd::prelude::*;
use crate::errors::ProtonError;

verus! {

/// Why the server closes a connection. Each cause carries a numeric close
/// code and a reason string; note that a rejected second connection reuses
/// the code of a normal completion, as the protocol's peers expect.
#[derive(Clone, Copy, Debug, PartialEq, Eq, Structural)]
pub enum CloseCause {
    /// The channel loops finished without error.
    Completed,
    /// A handshake stream could not be classified or bound.
    SetupError,
    /// Accepting a handshake stream failed at the transport.
    AcceptError,
    /// The handshake did not finish within its deadline.
    SetupTimeout,
    /// A channel operation did not finish within its deadline.
    OpTimeout,
    /// A channel loop failed for any other reason.
    StreamError,
    /// A second connection arrived while one was being served.
    Rejected,
}

/// The numeric close code for a cause.
pub open spec fn spec_close_code(c: CloseCause) -> u32 {
    match c {
        CloseCause::Completed => 0,
        CloseCause::SetupError => 1,
        CloseCause::AcceptError => 2,
        CloseCause::SetupTimeout => 3,
        CloseCause::OpTimeout => 4,
        CloseCause::StreamError => 5,
        CloseCause::Rejected => 0,
    }
}

/// The numeric close code sent when the server closes for `c`.
pub fn close_code(c: CloseCause) -> (code: u32)
    ensures
        code == spec_close_code(c),
{
    match c {
        CloseCause::Completed => 0,
        CloseCause::SetupError => 1,
        CloseCause::AcceptError => 2,
        CloseCause::SetupTimeout => 3,
        CloseCause::OpTimeout => 4,
        CloseCause::StreamError => 5,
        CloseCause::Rejected => 0,
    }
}

/// The reason string sent beside the close code.
pub fn close_reason(c: CloseCause) -> (r: &'static str)
    ensures
        c == CloseCause::Completed ==> r@ == "Streams completed"@,
        c == CloseCause::SetupError ==> r@ == "Stream setup error"@,
        c == CloseCause::AcceptError ==> r@ == "Stream accept error"@,
        c == CloseCause::SetupTimeout ==> r@ == "Stream setup timeout"@,
        c == CloseCause::OpTimeout ==> r@ == "Stream operation timeout"@,
        c == CloseCause::StreamError ==> r@ == "Stream error"@,
        c == CloseCause::Rejected ==> r@ == "Another client is already connected"@,
    {
    match c {
        CloseCause::Completed => "Streams completed",
        CloseCause::SetupError => "Stream setup error",
        CloseCause::AcceptError => "Stream accept error",
        CloseCause::SetupTimeout => "Stream setup timeout",
        CloseCause::OpTimeout => "Stream operation timeout",
        CloseCause::StreamError => "Stream error",
        CloseCause::Rejected => "Another client is already connected",
    }
}

/// What finished first when the three channel loops raced the transport's
/// closed notification.
#[derive(Clone, Copy, Debug, PartialEq, Eq)]
pub enum RaceWinner {
    /// The transport reported the connection closed; the loops are cancelled.
    TransportClosed,
    /// One channel loop finished with this result; the others are cancelled.
    ChannelDone(Result<(), ProtonError>),
}

/// The session outcome a race winner decides.
pub open spec fn spec_session_outcome(w: RaceWinner) -> Result<(), ProtonError> {
    match w {
        RaceWinner::TransportClosed => Ok(()),
        RaceWinner::ChannelDone(r) => r,
    }
}

/// Decide the session outcome: a transport close is a graceful end, and the
/// first channel loop to finish otherwise hands over its own result.
pub fn session_outcome(w: RaceWinner) -> (r: Result<(), ProtonError>)
    ensures
        r == spec_session_outcome(w),
{
    match w {
        RaceWinner::TransportClosed => Ok(()),
        RaceWinner::ChannelDone(r) => r,
    }
}

/// The close cause a finished session's outcome selects.
pub open spec fn spec_close_for_outcome(r: Result<(), ProtonError>) -> CloseCause {
    match r {
        Ok(_) => CloseCause::Completed,
        Err(ProtonError::Timeout) => CloseCause::OpTimeout,
        Err(_) => CloseCause::StreamError,
    }
}

/// Pick the close cause once the session is over: normal completion, a
/// channel deadline, or any other channel failure.
pub fn close_for_outcome(r: &Result<(), ProtonError>) -> (c: CloseCause)
    ensures
        c == spec_close_for_outcome(*r),
{
    match r {
        Ok(_) => CloseCause::Completed,
        Err(ProtonError::Timeout) => CloseCause::OpTimeout,
        Err(_) => CloseCause::StreamError,
    }
}

/// The client's handle on one established session, as far as closing is
/// concerned.
#[derive(Clone, Copy, Debug, PartialEq, Eq, Structural)]
pub struct ClientSession {
    pub open: bool,
}

/// Closing always leaves the session closed and never fails.
pub open spec fn spec_close(s: ClientSession) -> ClientSession {
    ClientSession { open: false }
}

impl ClientSession {
    /// A freshly established session.
    pub fn new() -> (s: Self)
        ensures
            s.open,
    {
        ClientSession { open: true }
    }

    /// Close the session. Closing an already-closed session is a no-op and
    /// raises no error.
    pub fn close(&mut self)
        ensures
            *final(self) == spec_close(*old(self)),
    {
        self.open = false;
    }
}

/// Law: close is idempotent — closing twice leaves exactly the state that
/// closing once leaves, so a second close changes nothing and raises nothing.
pub proof fn lemma_close_idempotent(s: ClientSession)
    ensures
        spec_close(spec_close(s)) == spec_close(s),
{
}

} // verus!
