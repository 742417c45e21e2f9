use massa::bootstrap_stream::send_timeout_message;
use massa::bootstrap_stream::{
    conclude_state_turn, end_turn, future_cursor_message, plan_state_changes, streaming_done,
    wants_consensus_part, ChangesFetch, ChangesRequest, PartCursors, StreamCursors, StreamTurn,
    TurnDecision,
};
use massa::slot::{Slot, StreamingStep};

#[test]
fn slot_order() {
    assert!(Slot::new(2, 0).is_after(&Slot::new(1, 31)));
    assert!(Slot::new(1, 3).is_after(&Slot::new(1, 2)));
    assert!(!Slot::new(1, 2).is_after(&Slot::new(1, 2)));
    assert!(!Slot::new(1, 2).is_after(&Slot::new(2, 0)));
}

#[test]
fn changes_plan() {
    let f = Slot::new(10, 3);
    assert_eq!(plan_state_changes(None, f), ChangesRequest::UpToDate);
    assert_eq!(plan_state_changes(Some(f), f), ChangesRequest::UpToDate);
    assert_eq!(plan_state_changes(Some(Slot::new(10, 4)), f), ChangesRequest::FutureCursor);
    assert_eq!(plan_state_changes(Some(Slot::new(9, 31)), f), ChangesRequest::Since(Slot::new(9, 31)));
    assert_eq!(future_cursor_message(), "Bootstrap cursor set to future slot");
}

type Parts = PartCursors<u64, u64, u64, u64, u64>;

fn parts(pool: StreamingStep<u64>) -> Parts {
    PartCursors {
        ledger: StreamingStep::Finished(None),
        pool,
        cycle: StreamingStep::Finished(None),
        credits: StreamingStep::Finished(None),
        ops: StreamingStep::Finished(None),
    }
}

#[test]
fn state_turns() {
    let cur = Slot::new(7, 0);
    assert!(matches!(
        conclude_state_turn(&parts(StreamingStep::Finished(None)), ChangesFetch::Failed, cur),
        StreamTurn::FinalStateError
    ));
    assert!(matches!(
        conclude_state_turn(&parts(StreamingStep::Finished(None)), ChangesFetch::InvalidSlot, cur),
        StreamTurn::SlotTooOld
    ));
    match conclude_state_turn(&parts(StreamingStep::Finished(None)), ChangesFetch::NotRequested, cur) {
        StreamTurn::Continue { global_step, changes_step } => {
            assert!(matches!(global_step, StreamingStep::Finished(Some(s)) if s == cur));
            assert!(matches!(changes_step, StreamingStep::Finished(Some(s)) if s == cur));
            assert!(wants_consensus_part(&global_step));
            let consensus: StreamingStep<u8> = StreamingStep::Finished(None);
            assert!(streaming_done(&global_step, &changes_step, &consensus));
            let consensus: StreamingStep<u8> = StreamingStep::Started;
            assert!(!streaming_done(&global_step, &changes_step, &consensus));
        }
        other => panic!("{:?}", other),
    }
    match conclude_state_turn(&parts(StreamingStep::Ongoing(4)), ChangesFetch::Fetched { empty: false }, cur) {
        StreamTurn::Continue { global_step, changes_step } => {
            assert!(matches!(global_step, StreamingStep::Ongoing(s) if s == cur));
            assert!(matches!(changes_step, StreamingStep::Ongoing(s) if s == cur));
            assert!(!wants_consensus_part(&global_step));
        }
        other => panic!("{:?}", other),
    }
}

#[test]
fn turn_endings() {
    let cur = Slot::new(4, 2);
    let start = || StreamCursors {
        last_slot: None,
        parts: parts(StreamingStep::Started),
        consensus_step: StreamingStep::<u8>::Started,
    };
    let (c, d) = end_turn(start(), cur, parts(StreamingStep::Ongoing(3)), StreamTurn::FinalStateError, None);
    assert_eq!(d, TurnDecision::FinalStateError);
    assert_eq!(c.last_slot, Some(cur));
    let (_, d) = end_turn(start(), cur, parts(StreamingStep::Ongoing(3)), StreamTurn::SlotTooOld, None);
    assert_eq!(d, TurnDecision::SendSlotTooOld);
    // the final state is not fully sent: no consensus part is taken, a part is sent
    let ongoing = StreamTurn::Continue {
        global_step: StreamingStep::Ongoing(cur),
        changes_step: StreamingStep::Finished(Some(cur)),
    };
    let (c, d) = end_turn(start(), cur, parts(StreamingStep::Ongoing(5)), ongoing, Some(StreamingStep::Finished(None)));
    assert_eq!(d, TurnDecision::SendPart);
    assert!(matches!(c.consensus_step, StreamingStep::Started));
    // the next turn reads the pool from the cursor this turn's read returned
    assert!(matches!(c.parts.pool, StreamingStep::Ongoing(5)));
    // all sent, consensus still going: a part
    let done = || StreamTurn::Continue {
        global_step: StreamingStep::Finished(Some(cur)),
        changes_step: StreamingStep::Finished(Some(cur)),
    };
    let (c, d) = end_turn(start(), cur, parts(StreamingStep::Finished(None)), done(), Some(StreamingStep::Ongoing(9)));
    assert_eq!(d, TurnDecision::SendPart);
    assert!(matches!(c.consensus_step, StreamingStep::Ongoing(9)));
    // all sent, consensus finished: the end
    let (c, d) = end_turn(c, cur, parts(StreamingStep::Finished(None)), done(), Some(StreamingStep::Finished(Some(9))));
    assert_eq!(d, TurnDecision::SendFinished);
    assert!(matches!(c.consensus_step, StreamingStep::Finished(Some(9))));
}

#[test]
fn send_timeout_texts() {
    assert_eq!(send_timeout_message(TurnDecision::FinalStateError), None);
    assert_eq!(
        send_timeout_message(TurnDecision::SendSlotTooOld).as_deref(),
        Some("SlotTooOld message send timed out")
    );
    assert_eq!(
        send_timeout_message(TurnDecision::SendFinished).as_deref(),
        Some("bootstrap ask ledger part send timed out")
    );
    assert_eq!(
        send_timeout_message(TurnDecision::SendPart).as_deref(),
        Some("bootstrap ask ledger part send timed out")
    );
}
