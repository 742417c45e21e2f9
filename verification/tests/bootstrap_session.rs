use massa::bootstrap_server::SessionSlots;
use massa::bootstrap_session::end_session;
use massa::bootstrap_session::{
    session_reply, timeout_message, Awaiting, BootstrapSession, ClientMessage, Outcome,
    SessionAction, SessionError, SessionReply, TimeoutStage,
};

type O = Outcome<&'static str, u32>;
type A = SessionAction<&'static str, u32>;

fn run(outcomes: Vec<O>) -> (BootstrapSession, Vec<A>) {
    let (mut s, first): (BootstrapSession, A) = BootstrapSession::start();
    let mut actions = vec![first];
    for o in outcomes {
        assert!(s.accepts(&o));
        actions.push(s.advance(o));
    }
    (s, actions)
}

#[test]
fn full_session() {
    let (s, acts) = run(vec![
        Outcome::Completed,
        Outcome::TimedOut,
        Outcome::Completed,
        Outcome::Received(ClientMessage::AskBootstrapPeers),
        Outcome::Completed,
        Outcome::Received(ClientMessage::AskBootstrapPart(5)),
        Outcome::Completed,
        Outcome::Received(ClientMessage::BootstrapSuccess),
    ]);
    assert!(matches!(acts[0], SessionAction::Handshake));
    assert!(matches!(acts[1], SessionAction::ReadClientError));
    assert!(matches!(acts[2], SessionAction::SendClock));
    assert!(matches!(acts[3], SessionAction::ReadRequest));
    assert!(matches!(acts[4], SessionAction::SendPeers));
    assert!(matches!(acts[5], SessionAction::ReadRequest));
    assert!(matches!(acts[6], SessionAction::StreamParts(5)));
    assert!(matches!(acts[7], SessionAction::ReadRequest));
    assert!(matches!(acts[8], SessionAction::Finish(Ok(()))));
    assert_eq!(s.awaiting(), Awaiting::Done);
    assert!(!s.accepts(&O::Completed));
}

#[test]
fn session_errors() {
    let (_, acts) = run(vec![Outcome::TimedOut]);
    assert!(matches!(acts[1], SessionAction::Finish(Err(SessionError::TimedOut(TimeoutStage::Handshake)))));
    let (_, acts) = run(vec![Outcome::Completed, Outcome::Received(ClientMessage::BootstrapError("bad".to_string()))]);
    match &acts[2] {
        SessionAction::Finish(Err(SessionError::General(e))) => assert_eq!(e, "bad"),
        other => panic!("{:?}", other),
    }
    let (_, acts) = run(vec![Outcome::Completed, Outcome::Received(ClientMessage::BootstrapSuccess)]);
    assert!(matches!(
        acts[2],
        SessionAction::Finish(Err(SessionError::UnexpectedClientMessage(ClientMessage::BootstrapSuccess)))
    ));
    let (_, acts) = run(vec![Outcome::Completed, Outcome::TimedOut, Outcome::TimedOut]);
    assert!(matches!(acts[3], SessionAction::Finish(Err(SessionError::TimedOut(TimeoutStage::Clock)))));
    let (_, acts) = run(vec![Outcome::Completed, Outcome::TimedOut, Outcome::Completed, Outcome::TimedOut]);
    assert!(matches!(acts[4], SessionAction::Finish(Ok(()))));
    let (_, acts) = run(vec![
        Outcome::Completed,
        Outcome::TimedOut,
        Outcome::Completed,
        Outcome::Received(ClientMessage::BootstrapError("boom".to_string())),
    ]);
    match &acts[4] {
        SessionAction::Finish(Err(SessionError::Received(e))) => assert_eq!(e, "boom"),
        other => panic!("{:?}", other),
    }
    let (_, acts) = run(vec![
        Outcome::Completed,
        Outcome::TimedOut,
        Outcome::Completed,
        Outcome::Received(ClientMessage::AskBootstrapPeers),
        Outcome::TimedOut,
    ]);
    assert!(matches!(acts[5], SessionAction::Finish(Err(SessionError::TimedOut(TimeoutStage::Peers)))));
    let (_, acts) = run(vec![Outcome::Completed, Outcome::Failed("io")]);
    assert!(matches!(acts[2], SessionAction::Finish(Err(SessionError::Io("io")))));
}

#[test]
fn replies_and_messages() {
    assert_eq!(timeout_message(TimeoutStage::Handshake), "bootstrap handshake send timed out");
    assert_eq!(timeout_message(TimeoutStage::Clock), "bootstrap clock send timed out");
    assert_eq!(timeout_message(TimeoutStage::Peers), "bootstrap peers send timed out");
    let ok: Option<Result<(), SessionError<(), ()>>> = Some(Ok(()));
    assert!(matches!(session_reply(&ok, 0), SessionReply::Nothing));
    let rec: Option<Result<(), SessionError<(), ()>>> = Some(Err(SessionError::Received("x".to_string())));
    assert!(matches!(session_reply(&rec, 0), SessionReply::Nothing));
    let io: Option<Result<(), SessionError<(), ()>>> = Some(Err(SessionError::Io(())));
    assert!(matches!(session_reply(&io, 0), SessionReply::ErrorText));
    let timed_out: Option<Result<(), SessionError<(), ()>>> = None;
    match session_reply(&timed_out, 120_000_000_000) {
        SessionReply::TimedOut(m) => assert_eq!(m, "Bootstrap process timedout (2m)"),
        other => panic!("{:?}", other),
    }
}

#[test]
fn ending_a_session_gives_its_slot_back() {
    let mut slots = SessionSlots::new(2);
    assert!(slots.try_acquire());
    let ok: Option<Result<(), SessionError<String, u8>>> = Some(Ok(()));
    assert!(matches!(end_session(&mut slots, &ok, 1_000_000_000), SessionReply::Nothing));
    assert_eq!(slots.active(), 0);
    assert!(slots.try_acquire());
    let late: Option<Result<(), SessionError<String, u8>>> = None;
    match end_session(&mut slots, &late, 1_000_000_000) {
        SessionReply::TimedOut(m) => assert_eq!(m, "Bootstrap process timedout (1s)"),
        _ => panic!("expected a timeout reply"),
    }
    assert_eq!(slots.active(), 0);
}
