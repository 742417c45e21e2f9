//! The course of one bootstrap session, as a state machine.
//!
//! The server handshakes with the client, gives it a moment to report an
//! error, sends the server time, then answers its requests (peers, state
//! parts) until it reports success or an error, goes silent, or fails. The
//! machine says what to do next; performing it (with its time limits) and
//! reporting how it went is up to the caller. `E` is the type of the I/O
//! errors passed on, `P` that of the cursors of a request for state parts.
use vstd::prelude::*;
use crate::durations::{format_duration, humantime_text};
use crate::bootstrap_server::SessionSlots;

verus! {

/// A message from a bootstrapping client.
#[derive(Debug)]
pub enum ClientMessage<P> {
    AskBootstrapPeers,
    AskBootstrapPart(P),
    BootstrapSuccess,
    BootstrapError(String),
}

/// How the last action went.
#[derive(Debug)]
pub enum Outcome<E, P> {
    /// It did not end within its time limit.
    TimedOut,
    /// It failed with this error.
    Failed(E),
    /// A send, the handshake or the streaming completed.
    Completed,
    /// A read gave this message.
    Received(ClientMessage<P>),
}

/// The step whose time limit ran out.
#[derive(Clone, Copy, Debug, PartialEq, Eq, Structural)]
pub enum TimeoutStage {
    Handshake,
    Clock,
    Peers,
}

/// Why a session ended in error.
#[derive(Debug)]
pub enum SessionError<E, P> {
    /// A step timed out.
    TimedOut(TimeoutStage),
    /// An I/O error, passed on.
    Io(E),
    /// The client reported an error right after the handshake.
    General(String),
    /// The client sent a message it should not have sent right after the
    /// handshake.
    UnexpectedClientMessage(ClientMessage<P>),
    /// The client reported an error while being served.
    Received(String),
}

/// What to do next.
#[derive(Debug)]
pub enum SessionAction<E, P> {
    /// Handshake with the client.
    Handshake,
    /// Read, for a short while, an error the client may report.
    ReadClientError,
    /// Send the server time.
    SendClock,
    /// Read the client's next request.
    ReadRequest,
    /// Send the client bootstrap peers.
    SendPeers,
    /// Stream state parts from these cursors.
    StreamParts(P),
    /// The session is over, with this result.
    Finish(Result<(), SessionError<E, P>>),
}

/// What the session waits for.
#[derive(Clone, Copy, Debug, PartialEq, Eq, Structural)]
pub enum Awaiting {
    Handshake,
    ClientError,
    Clock,
    Request,
    Peers,
    Parts,
    Done,
}

/// Whether `outcome` can report on what the session waits for.
pub open spec fn fits<E, P>(awaiting: Awaiting, outcome: Outcome<E, P>) -> bool {
    match awaiting {
        Awaiting::Handshake | Awaiting::Clock | Awaiting::Peers => !(outcome is Received),
        Awaiting::ClientError | Awaiting::Request => !(outcome is Completed),
        Awaiting::Parts => outcome is Failed || outcome is Completed,
        Awaiting::Done => false,
    }
}

/// The next state and action of a session waiting for `awaiting` when
/// `outcome` comes in.
pub open spec fn session_transition<E, P>(awaiting: Awaiting, outcome: Outcome<E, P>) -> (
    Awaiting,
    SessionAction<E, P>,
) {
    match (awaiting, outcome) {
        (Awaiting::Handshake, Outcome::Completed) => (
            Awaiting::ClientError,
            SessionAction::ReadClientError,
        ),
        (Awaiting::Handshake, Outcome::TimedOut) => (
            Awaiting::Done,
            SessionAction::Finish(Err(SessionError::TimedOut(TimeoutStage::Handshake))),
        ),
        (Awaiting::ClientError, Outcome::TimedOut) => (Awaiting::Clock, SessionAction::SendClock),
        (Awaiting::ClientError, Outcome::Received(ClientMessage::BootstrapError(e))) => (
            Awaiting::Done,
            SessionAction::Finish(Err(SessionError::General(e))),
        ),
        (Awaiting::ClientError, Outcome::Received(m)) => (
            Awaiting::Done,
            SessionAction::Finish(Err(SessionError::UnexpectedClientMessage(m))),
        ),
        (Awaiting::Clock, Outcome::Completed) => (Awaiting::Request, SessionAction::ReadRequest),
        (Awaiting::Clock, Outcome::TimedOut) => (
            Awaiting::Done,
            SessionAction::Finish(Err(SessionError::TimedOut(TimeoutStage::Clock))),
        ),
        (Awaiting::Request, Outcome::TimedOut) => (Awaiting::Done, SessionAction::Finish(Ok(()))),
        (Awaiting::Request, Outcome::Received(ClientMessage::AskBootstrapPeers)) => (
            Awaiting::Peers,
            SessionAction::SendPeers,
        ),
        (Awaiting::Request, Outcome::Received(ClientMessage::AskBootstrapPart(p))) => (
            Awaiting::Parts,
            SessionAction::StreamParts(p),
        ),
        (Awaiting::Request, Outcome::Received(ClientMessage::BootstrapSuccess)) => (
            Awaiting::Done,
            SessionAction::Finish(Ok(())),
        ),
        (Awaiting::Request, Outcome::Received(ClientMessage::BootstrapError(e))) => (
            Awaiting::Done,
            SessionAction::Finish(Err(SessionError::Received(e))),
        ),
        (Awaiting::Peers, Outcome::Completed) => (Awaiting::Request, SessionAction::ReadRequest),
        (Awaiting::Peers, Outcome::TimedOut) => (
            Awaiting::Done,
            SessionAction::Finish(Err(SessionError::TimedOut(TimeoutStage::Peers))),
        ),
        (Awaiting::Parts, Outcome::Completed) => (Awaiting::Request, SessionAction::ReadRequest),
        (_, Outcome::Failed(e)) => (Awaiting::Done, SessionAction::Finish(Err(SessionError::Io(e)))),
        (a, _) => (a, SessionAction::Finish(Ok(()))),
    }
}

/// A bootstrap session.
pub struct BootstrapSession {
    awaiting: Awaiting,
}

impl BootstrapSession {
    pub closed spec fn spec_awaiting(&self) -> Awaiting {
        self.awaiting
    }

    /// A new session; its first action is the handshake.
    pub fn start<E, P>() -> (r: (BootstrapSession, SessionAction<E, P>))
        ensures
            r.0.spec_awaiting() == Awaiting::Handshake,
            r.1 is Handshake,
    {
        (BootstrapSession { awaiting: Awaiting::Handshake }, SessionAction::Handshake)
    }

    /// What the session waits for.
    pub fn awaiting(&self) -> (a: Awaiting)
        ensures
            a == self.spec_awaiting(),
    {
        self.awaiting
    }

    /// Whether `outcome` can report on what the session waits for.
    pub fn accepts<E, P>(&self, outcome: &Outcome<E, P>) -> (b: bool)
        ensures
            b == fits(self.spec_awaiting(), *outcome),
    {
        match self.awaiting {
            Awaiting::Handshake | Awaiting::Clock | Awaiting::Peers => match outcome {
                Outcome::Received(_) => false,
                _ => true,
            },
            Awaiting::ClientError | Awaiting::Request => match outcome {
                Outcome::Completed => false,
                _ => true,
            },
            Awaiting::Parts => match outcome {
                Outcome::Failed(_) | Outcome::Completed => true,
                _ => false,
            },
            Awaiting::Done => false,
        }
    }

    /// Moves the session on with the outcome of its last action and says what
    /// to do next.
    pub fn advance<E, P>(&mut self, outcome: Outcome<E, P>) -> (a: SessionAction<E, P>)
        requires
            fits(old(self).spec_awaiting(), outcome),
        ensures
            (final(self).spec_awaiting(), a) == session_transition(old(self).spec_awaiting(), outcome),
            // an I/O failure ends the session with that error, at any step
            outcome matches Outcome::Failed(e) ==> final(self).spec_awaiting() == Awaiting::Done && a
                == SessionAction::<E, P>::Finish(Err(SessionError::Io(e))),
            // the handshake, then a short wait for an early client error
            old(self).spec_awaiting() == Awaiting::Handshake && outcome is Completed ==> final(self).spec_awaiting() == Awaiting::ClientError && a is ReadClientError,
            old(self).spec_awaiting() == Awaiting::Handshake && outcome is TimedOut ==> final(self).spec_awaiting() == Awaiting::Done && a == SessionAction::<E, P>::Finish(
                Err(SessionError::TimedOut(TimeoutStage::Handshake)),
            ),
            // silence after the handshake is what lets the clock go out
            old(self).spec_awaiting() == Awaiting::ClientError && outcome is TimedOut ==> final(self).spec_awaiting() == Awaiting::Clock && a is SendClock,
            old(self).spec_awaiting() == Awaiting::ClientError ==> (outcome matches Outcome::Received(
                ClientMessage::BootstrapError(e),
            ) ==> final(self).spec_awaiting() == Awaiting::Done && a == SessionAction::<
                E,
                P,
            >::Finish(Err(SessionError::General(e)))),
            // any other message before the clock is unexpected and ends the session
            old(self).spec_awaiting() == Awaiting::ClientError ==> (outcome matches Outcome::Received(m)
                ==> (!(m is BootstrapError) ==> final(self).spec_awaiting() == Awaiting::Done && a
                == SessionAction::<E, P>::Finish(Err(SessionError::UnexpectedClientMessage(m))))),
            old(self).spec_awaiting() == Awaiting::Clock && outcome is Completed ==> final(self).spec_awaiting() == Awaiting::Request && a is ReadRequest,
            old(self).spec_awaiting() == Awaiting::Clock && outcome is TimedOut ==> final(self).spec_awaiting() == Awaiting::Done && a == SessionAction::<E, P>::Finish(
                Err(SessionError::TimedOut(TimeoutStage::Clock)),
            ),
            // requests are served once the clock is sent
            old(self).spec_awaiting() == Awaiting::Request && outcome is TimedOut ==> final(self).spec_awaiting() == Awaiting::Done && a == SessionAction::<E, P>::Finish(Ok(())),
            old(self).spec_awaiting() == Awaiting::Request && outcome == Outcome::<E, P>::Received(
                ClientMessage::AskBootstrapPeers,
            ) ==> final(self).spec_awaiting() == Awaiting::Peers && a is SendPeers,
            old(self).spec_awaiting() == Awaiting::Request ==> (outcome matches Outcome::Received(
                ClientMessage::AskBootstrapPart(c),
            ) ==> final(self).spec_awaiting() == Awaiting::Parts && a == SessionAction::<
                E,
                P,
            >::StreamParts(c)),
            old(self).spec_awaiting() == Awaiting::Request && outcome == Outcome::<E, P>::Received(
                ClientMessage::BootstrapSuccess,
            ) ==> final(self).spec_awaiting() == Awaiting::Done && a == SessionAction::<
                E,
                P,
            >::Finish(Ok(())),
            old(self).spec_awaiting() == Awaiting::Request ==> (outcome matches Outcome::Received(
                ClientMessage::BootstrapError(e),
            ) ==> final(self).spec_awaiting() == Awaiting::Done && a == SessionAction::<
                E,
                P,
            >::Finish(Err(SessionError::Received(e)))),
            (old(self).spec_awaiting() == Awaiting::Peers || old(self).spec_awaiting()
                == Awaiting::Parts) && outcome is Completed ==> final(self).spec_awaiting()
                == Awaiting::Request && a is ReadRequest,
            old(self).spec_awaiting() == Awaiting::Peers && outcome is TimedOut ==> final(self).spec_awaiting() == Awaiting::Done && a == SessionAction::<E, P>::Finish(
                Err(SessionError::TimedOut(TimeoutStage::Peers)),
            ),
    {
        let (next, action) = match self.awaiting {
            Awaiting::Handshake => match outcome {
                Outcome::Completed => (Awaiting::ClientError, SessionAction::ReadClientError),
                Outcome::TimedOut => (
                    Awaiting::Done,
                    SessionAction::Finish(Err(SessionError::TimedOut(TimeoutStage::Handshake))),
                ),
                Outcome::Failed(e) => (Awaiting::Done, SessionAction::Finish(Err(SessionError::Io(e)))),
                Outcome::Received(_) => (Awaiting::Handshake, SessionAction::Finish(Ok(()))),
            },
            Awaiting::ClientError => match outcome {
                Outcome::TimedOut => (Awaiting::Clock, SessionAction::SendClock),
                Outcome::Failed(e) => (Awaiting::Done, SessionAction::Finish(Err(SessionError::Io(e)))),
                Outcome::Received(ClientMessage::BootstrapError(e)) => (
                    Awaiting::Done,
                    SessionAction::Finish(Err(SessionError::General(e))),
                ),
                Outcome::Received(m) => (
                    Awaiting::Done,
                    SessionAction::Finish(Err(SessionError::UnexpectedClientMessage(m))),
                ),
                Outcome::Completed => (Awaiting::ClientError, SessionAction::Finish(Ok(()))),
            },
            Awaiting::Clock => match outcome {
                Outcome::Completed => (Awaiting::Request, SessionAction::ReadRequest),
                Outcome::TimedOut => (
                    Awaiting::Done,
                    SessionAction::Finish(Err(SessionError::TimedOut(TimeoutStage::Clock))),
                ),
                Outcome::Failed(e) => (Awaiting::Done, SessionAction::Finish(Err(SessionError::Io(e)))),
                Outcome::Received(_) => (Awaiting::Clock, SessionAction::Finish(Ok(()))),
            },
            Awaiting::Request => match outcome {
                Outcome::TimedOut => (Awaiting::Done, SessionAction::Finish(Ok(()))),
                Outcome::Failed(e) => (Awaiting::Done, SessionAction::Finish(Err(SessionError::Io(e)))),
                Outcome::Received(ClientMessage::AskBootstrapPeers) => (
                    Awaiting::Peers,
                    SessionAction::SendPeers,
                ),
                Outcome::Received(ClientMessage::AskBootstrapPart(p)) => (
                    Awaiting::Parts,
                    SessionAction::StreamParts(p),
                ),
                Outcome::Received(ClientMessage::BootstrapSuccess) => (
                    Awaiting::Done,
                    SessionAction::Finish(Ok(())),
                ),
                Outcome::Received(ClientMessage::BootstrapError(e)) => (
                    Awaiting::Done,
                    SessionAction::Finish(Err(SessionError::Received(e))),
                ),
                Outcome::Completed => (Awaiting::Request, SessionAction::Finish(Ok(()))),
            },
            Awaiting::Peers => match outcome {
                Outcome::Completed => (Awaiting::Request, SessionAction::ReadRequest),
                Outcome::TimedOut => (
                    Awaiting::Done,
                    SessionAction::Finish(Err(SessionError::TimedOut(TimeoutStage::Peers))),
                ),
                Outcome::Failed(e) => (Awaiting::Done, SessionAction::Finish(Err(SessionError::Io(e)))),
                Outcome::Received(_) => (Awaiting::Peers, SessionAction::Finish(Ok(()))),
            },
            Awaiting::Parts => match outcome {
                Outcome::Completed => (Awaiting::Request, SessionAction::ReadRequest),
                Outcome::Failed(e) => (Awaiting::Done, SessionAction::Finish(Err(SessionError::Io(e)))),
                _ => (Awaiting::Parts, SessionAction::Finish(Ok(()))),
            },
            Awaiting::Done => match outcome {
                Outcome::Failed(e) => (Awaiting::Done, SessionAction::Finish(Err(SessionError::Io(e)))),
                _ => (Awaiting::Done, SessionAction::Finish(Ok(()))),
            },
        };
        self.awaiting = next;
        action
    }
}

/// The error text of a step that timed out.
pub open spec fn timeout_text(stage: TimeoutStage) -> Seq<char> {
    match stage {
        TimeoutStage::Handshake => "bootstrap handshake send timed out"@,
        TimeoutStage::Clock => "bootstrap clock send timed out"@,
        TimeoutStage::Peers => "bootstrap peers send timed out"@,
    }
}

/// The error text of a step that timed out.
pub fn timeout_message(stage: TimeoutStage) -> (s: String)
    ensures
        s@ == timeout_text(stage),
{
    match stage {
        TimeoutStage::Handshake => String::from_str("bootstrap handshake send timed out"),
        TimeoutStage::Clock => String::from_str("bootstrap clock send timed out"),
        TimeoutStage::Peers => String::from_str("bootstrap peers send timed out"),
    }
}

/// What the server tells the client once its session is over.
#[derive(Debug)]
pub enum SessionReply {
    /// Nothing: the session succeeded, or the client itself reported the error.
    Nothing,
    /// The text of the session's error.
    ErrorText,
    /// The session ran past its time limit; this message is sent.
    TimedOut(String),
}

/// The message sent when a session runs past `bootstrap_timeout` nanoseconds.
pub open spec fn session_timeout_text(bootstrap_timeout: u64) -> Seq<char> {
    "Bootstrap process timedout ("@ + humantime_text(bootstrap_timeout) + ")"@
}

/// Decides what to tell the client once its session is over: `result` is
/// its result, or `None` if it ran past `bootstrap_timeout` nanoseconds.
pub fn session_reply<E, P>(result: &Option<Result<(), SessionError<E, P>>>, bootstrap_timeout: u64) -> (r:
    SessionReply)
    ensures
        match *result {
            Some(Ok(())) => r is Nothing,
            Some(Err(SessionError::Received(_))) => r is Nothing,
            Some(Err(_)) => r is ErrorText,
            None => r is TimedOut && r->TimedOut_0@ == session_timeout_text(bootstrap_timeout),
        },
{
    match result {
        Some(Ok(())) => SessionReply::Nothing,
        Some(Err(SessionError::Received(_))) => SessionReply::Nothing,
        Some(Err(_)) => SessionReply::ErrorText,
        None => {
            let mut s = String::from_str("Bootstrap process timedout (");
            let d = format_duration(bootstrap_timeout);
            s.append(d.as_str());
            s.append(")");
            SessionReply::TimedOut(s)
        },
    }
}

/// Ends a session: gives its slot back to `slots` at once, so that the
/// server can take a new client before this one is told anything, then
/// decides what to tell the client, as `session_reply` does.
pub fn end_session<E, P>(
    slots: &mut SessionSlots,
    result: &Option<Result<(), SessionError<E, P>>>,
    bootstrap_timeout: u64,
) -> (r: SessionReply)
    ensures
        final(slots).spec_max() == old(slots).spec_max(),
        final(slots).spec_active() == (if old(slots).spec_active() > 0 {
            old(slots).spec_active() - 1
        } else {
            0
        }),
        match *result {
            Some(Ok(())) => r is Nothing,
            Some(Err(SessionError::Received(_))) => r is Nothing,
            Some(Err(_)) => r is ErrorText,
            None => r is TimedOut && r->TimedOut_0@ == session_timeout_text(bootstrap_timeout),
        },
{
    slots.release();
    session_reply(result, bootstrap_timeout)
}

/// Peers and state parts are served only in answer to a request, which is
/// read only once the clock was sent; a message that arrives while the server
/// waits for an early client error, other than that error, ends the session
/// as unexpected.
pub proof fn lemma_requests_served_only_after_clock<E, P>(awaiting: Awaiting, outcome: Outcome<E, P>)
    ensures
        session_transition(awaiting, outcome).1 is SendPeers ==> awaiting == Awaiting::Request
            && outcome == Outcome::<E, P>::Received(ClientMessage::AskBootstrapPeers),
        session_transition(awaiting, outcome).1 is StreamParts ==> awaiting == Awaiting::Request,
        session_transition(awaiting, outcome).1 is SendClock ==> awaiting == Awaiting::ClientError
            && outcome is TimedOut,
        awaiting == Awaiting::ClientError && (outcome matches Outcome::Received(m) && !(
        m is BootstrapError)) ==> session_transition(awaiting, outcome) == (
            Awaiting::Done,
            SessionAction::<E, P>::Finish(Err(SessionError::UnexpectedClientMessage(outcome->Received_0))),
        ),
{
}

/// Once a session is over it stays over: every action that ends it leaves it
/// waiting for nothing.
pub proof fn lemma_finish_is_final<E, P>(awaiting: Awaiting, outcome: Outcome<E, P>)
    requires
        fits(awaiting, outcome),
    ensures
        session_transition(awaiting, outcome).1 is Finish <==> session_transition(
            awaiting,
            outcome,
        ).0 == Awaiting::Done,
{
}

/// A session ends in success only while serving requests: when the client
/// goes silent or reports success.
pub proof fn lemma_success_only_when_serving<E, P>(awaiting: Awaiting, outcome: Outcome<E, P>)
    requires
        fits(awaiting, outcome),
        session_transition(awaiting, outcome).1 matches SessionAction::Finish(Ok(())),
    ensures
        awaiting == Awaiting::Request,
        outcome is TimedOut || outcome matches Outcome::Received(ClientMessage::BootstrapSuccess),
{
}

/// Every I/O error ends the session with that error.
pub proof fn lemma_io_errors_end_session<E, P>(awaiting: Awaiting, e: E)
    requires
        awaiting != Awaiting::Done,
    ensures
        session_transition(awaiting, Outcome::<E, P>::Failed(e)) == (
            Awaiting::Done,
            SessionAction::<E, P>::Finish(Err(SessionError::Io(e))),
        ),
{
}

} // verus!
