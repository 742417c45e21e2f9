//! Decisions taken while streaming the state to a bootstrapping client.
//!
//! Each turn reads a part of the final state (ledger, asynchronous pool,
//! cycle history, deferred credits, executed operations), the changes of the
//! final state since the client's last slot, then possibly a part of the
//! consensus graph, and sends it all. Streaming ends once every part is
//! finished.
use vstd::prelude::*;
use crate::slot::{Slot, StreamingStep, slot_before};

verus! {

/// Which changes of the final state the turn needs.
#[derive(Clone, Copy, Debug, PartialEq, Eq, Structural)]
pub enum ChangesRequest {
    /// The client has no slot yet, or is at the final state's slot: none.
    UpToDate,
    /// The client's cursor lies after the final state's slot: an error.
    FutureCursor,
    /// The changes since this slot.
    Since(Slot),
}

/// What asking the final state for its changes gave.
#[derive(Clone, Copy, Debug, PartialEq, Eq, Structural)]
pub enum ChangesFetch {
    /// Nothing was asked.
    NotRequested,
    /// The changes, empty or not.
    Fetched { empty: bool },
    /// The client's slot is too old for the final state to know the changes.
    InvalidSlot,
    /// Another error of the final state.
    Failed,
}

/// The outcome of the final-state part of a turn.
#[derive(Debug)]
pub enum StreamTurn {
    /// The final state failed: the stream stops with its error.
    FinalStateError,
    /// The client's slot is too old: tell it so and stop.
    SlotTooOld,
    /// Go on with these cursors for the final state and for its changes.
    Continue { global_step: StreamingStep<Slot>, changes_step: StreamingStep<Slot> },
}

/// The changes a turn needs, given the client's last slot and the final
/// state's slot.
pub open spec fn changes_request(last_slot: Option<Slot>, final_slot: Slot) -> ChangesRequest {
    match last_slot {
        Some(s) => if s != final_slot {
            if slot_before(final_slot, s) {
                ChangesRequest::FutureCursor
            } else {
                ChangesRequest::Since(s)
            }
        } else {
            ChangesRequest::UpToDate
        },
        None => ChangesRequest::UpToDate,
    }
}

/// Decides which changes of the final state a turn needs.
pub fn plan_state_changes(last_slot: Option<Slot>, final_slot: Slot) -> (r: ChangesRequest)
    ensures
        r == changes_request(last_slot, final_slot),
        last_slot is None ==> r == ChangesRequest::UpToDate,
        last_slot == Some(final_slot) ==> r == ChangesRequest::UpToDate,
        last_slot matches Some(s) ==> (slot_before(s, final_slot) ==> r == ChangesRequest::Since(s)),
        last_slot matches Some(s) ==> (slot_before(final_slot, s) ==> r
            == ChangesRequest::FutureCursor),
{
    match last_slot {
        Some(s) => {
            if s != final_slot {
                if s.is_after(&final_slot) {
                    ChangesRequest::FutureCursor
                } else {
                    ChangesRequest::Since(s)
                }
            } else {
                ChangesRequest::UpToDate
            }
        },
        None => ChangesRequest::UpToDate,
    }
}

/// The error text of a client cursor set after the final state's slot.
pub fn future_cursor_message() -> (s: String)
    ensures
        s@ == "Bootstrap cursor set to future slot"@,
{
    String::from_str("Bootstrap cursor set to future slot")
}

/// Concludes the final-state part of a turn at slot `current_slot`, given
/// the cursors that its reads of the five parts returned and what fetching
/// the changes gave.
pub fn conclude_state_turn<L, P, C, D, O>(
    parts_read: &PartCursors<L, P, C, D, O>,
    fetch: ChangesFetch,
    current_slot: Slot,
) -> (r: StreamTurn)
    ensures
        fetch == ChangesFetch::Failed ==> r is FinalStateError,
        fetch == ChangesFetch::InvalidSlot ==> r is SlotTooOld,
        fetch != ChangesFetch::Failed && fetch != ChangesFetch::InvalidSlot ==> {
            &&& r is Continue
            &&& r->global_step == (if parts_read.ledger is Finished && parts_read.pool is Finished
                && parts_read.cycle is Finished && parts_read.credits is Finished
                && parts_read.ops is Finished {
                StreamingStep::Finished(Some(current_slot))
            } else {
                StreamingStep::Ongoing(current_slot)
            })
            &&& r->changes_step == (if fetch == ChangesFetch::NotRequested || fetch
                == (ChangesFetch::Fetched { empty: true }) {
                StreamingStep::Finished(Some(current_slot))
            } else {
                StreamingStep::Ongoing(current_slot)
            })
        },
{
    let changes_empty = match fetch {
        ChangesFetch::Failed => {
            return StreamTurn::FinalStateError;
        },
        ChangesFetch::InvalidSlot => {
            return StreamTurn::SlotTooOld;
        },
        ChangesFetch::NotRequested => true,
        ChangesFetch::Fetched { empty } => empty,
    };
    let global_step = if parts_read.ledger.finished() && parts_read.pool.finished()
        && parts_read.cycle.finished() && parts_read.credits.finished() && parts_read.ops.finished() {
        StreamingStep::Finished(Some(current_slot))
    } else {
        StreamingStep::Ongoing(current_slot)
    };
    let changes_step = if changes_empty {
        StreamingStep::Finished(Some(current_slot))
    } else {
        StreamingStep::Ongoing(current_slot)
    };
    StreamTurn::Continue { global_step, changes_step }
}

/// Whether the turn also streams a part of the consensus graph: only once the
/// final state's base is fully sent.
pub fn wants_consensus_part(global_step: &StreamingStep<Slot>) -> (b: bool)
    ensures
        b == (*global_step is Finished),
{
    global_step.finished()
}

/// Whether streaming is over: the final state, its changes and the consensus
/// graph are all fully sent.
pub fn streaming_done<G>(
    global_step: &StreamingStep<Slot>,
    changes_step: &StreamingStep<Slot>,
    consensus_step: &StreamingStep<G>,
) -> (b: bool)
    ensures
        b == (*global_step is Finished && *changes_step is Finished && *consensus_step is Finished),
{
    global_step.finished() && changes_step.finished() && consensus_step.finished()
}

/// A client that is at the final state's slot, or has none, needs no change,
/// and one whose cursor is behind needs the changes since its cursor.
pub proof fn lemma_changes_request_cases(last_slot: Option<Slot>, final_slot: Slot)
    ensures
        last_slot is None ==> changes_request(last_slot, final_slot) == ChangesRequest::UpToDate,
        last_slot == Some(final_slot) ==> changes_request(last_slot, final_slot)
            == ChangesRequest::UpToDate,
        last_slot matches Some(s) ==> (slot_before(s, final_slot) ==> changes_request(
            last_slot,
            final_slot,
        ) == ChangesRequest::Since(s)),
        last_slot matches Some(s) ==> (slot_before(final_slot, s) ==> changes_request(
            last_slot,
            final_slot,
        ) == ChangesRequest::FutureCursor),
{
}

/// The cursors of the five parts of the final state: ledger, asynchronous
/// pool, cycle history, deferred credits and executed operations.
#[derive(Debug)]
pub struct PartCursors<L, P, C, D, O> {
    pub ledger: StreamingStep<L>,
    pub pool: StreamingStep<P>,
    pub cycle: StreamingStep<C>,
    pub credits: StreamingStep<D>,
    pub ops: StreamingStep<O>,
}

/// The cursors a client's stream carries from one turn to the next: the
/// last slot sent, the five final-state parts' cursors and the consensus
/// graph's cursor. A turn reads each part from its cursor here.
#[derive(Debug)]
pub struct StreamCursors<L, P, C, D, O, G> {
    pub last_slot: Option<Slot>,
    pub parts: PartCursors<L, P, C, D, O>,
    pub consensus_step: StreamingStep<G>,
}

/// How a turn ends.
#[derive(Clone, Copy, Debug, PartialEq, Eq, Structural)]
pub enum TurnDecision {
    /// The final state failed: the stream stops with its error.
    FinalStateError,
    /// Send `SlotTooOld`; the stream ends.
    SendSlotTooOld,
    /// Send `BootstrapFinished`; the stream ends.
    SendFinished,
    /// Send the turn's parts; the next turn starts.
    SendPart,
}

/// Whether a turn that concluded with `turn` took a consensus part.
pub open spec fn took_consensus_part(turn: StreamTurn) -> bool {
    turn matches StreamTurn::Continue { global_step, .. } && global_step is Finished
}

/// The consensus cursor after a turn that concluded with `turn`, given the
/// cursor the consensus part came with, if one was read.
pub open spec fn next_consensus_step<G>(
    old_step: StreamingStep<G>,
    turn: StreamTurn,
    new_step: Option<StreamingStep<G>>,
) -> StreamingStep<G> {
    if took_consensus_part(turn) && new_step is Some {
        new_step->Some_0
    } else {
        old_step
    }
}

/// How a turn that concluded with `turn` ends, once the consensus cursor is
/// `consensus_step`.
pub open spec fn turn_decision<G>(turn: StreamTurn, consensus_step: StreamingStep<G>) -> TurnDecision {
    match turn {
        StreamTurn::FinalStateError => TurnDecision::FinalStateError,
        StreamTurn::SlotTooOld => TurnDecision::SendSlotTooOld,
        StreamTurn::Continue { global_step, changes_step } => if global_step is Finished
            && changes_step is Finished && consensus_step is Finished {
            TurnDecision::SendFinished
        } else {
            TurnDecision::SendPart
        },
    }
}

/// Ends a turn at slot `current_slot` that concluded with `turn`:
/// `parts_read` are the cursors that this turn's reads of the five
/// final-state parts returned, and `new_consensus_step` the cursor the
/// consensus part came with, read only once the final state's base is fully
/// sent. Returns the cursors from which the next turn reads and how the turn
/// ends.
pub fn end_turn<L, P, C, D, O, G>(
    cursors: StreamCursors<L, P, C, D, O, G>,
    current_slot: Slot,
    parts_read: PartCursors<L, P, C, D, O>,
    turn: StreamTurn,
    new_consensus_step: Option<StreamingStep<G>>,
) -> (r: (StreamCursors<L, P, C, D, O, G>, TurnDecision))
    ensures
        r.0.last_slot == Some(current_slot),
        r.0.parts == parts_read,
        r.0.consensus_step == next_consensus_step(cursors.consensus_step, turn, new_consensus_step),
        r.1 == turn_decision(turn, r.0.consensus_step),
        // once the final state's base is fully sent, the consensus cursor
        // moves to the one the consensus part came with, whatever the changes
        (turn matches StreamTurn::Continue { global_step, .. } && global_step is Finished)
            && new_consensus_step is Some ==> r.0.consensus_step == new_consensus_step->Some_0,
        // before that, it stays
        !(turn matches StreamTurn::Continue { global_step, .. } && global_step is Finished)
            ==> r.0.consensus_step == cursors.consensus_step,
        new_consensus_step is None ==> r.0.consensus_step == cursors.consensus_step,
        turn is FinalStateError ==> r.1 == TurnDecision::FinalStateError,
        turn is SlotTooOld ==> r.1 == TurnDecision::SendSlotTooOld,
        turn matches StreamTurn::Continue { global_step, changes_step } ==> (r.1
            == TurnDecision::SendFinished <==> (global_step is Finished && changes_step is Finished
            && r.0.consensus_step is Finished)),
        turn is Continue ==> (r.1 == TurnDecision::SendFinished || r.1 == TurnDecision::SendPart),
{
    let took = match &turn {
        StreamTurn::Continue { global_step, .. } => global_step.finished(),
        _ => false,
    };
    let consensus_step = if took {
        match new_consensus_step {
            Some(c) => c,
            None => cursors.consensus_step,
        }
    } else {
        cursors.consensus_step
    };
    let decision = match &turn {
        StreamTurn::FinalStateError => TurnDecision::FinalStateError,
        StreamTurn::SlotTooOld => TurnDecision::SendSlotTooOld,
        StreamTurn::Continue { global_step, changes_step } => {
            if streaming_done(global_step, changes_step, &consensus_step) {
                TurnDecision::SendFinished
            } else {
                TurnDecision::SendPart
            }
        },
    };
    (StreamCursors { last_slot: Some(current_slot), parts: parts_read, consensus_step }, decision)
}

/// A consensus part read once the final state's base is fully sent is
/// never forgotten: the next turn goes on from the cursor it came with, even
/// while state changes are still being streamed.
pub proof fn lemma_consensus_cursor_advances<G>(
    old_step: StreamingStep<G>,
    changes_step: StreamingStep<Slot>,
    final_slot: Option<Slot>,
    new_step: StreamingStep<G>,
)
    ensures
        next_consensus_step(
            old_step,
            StreamTurn::Continue { global_step: StreamingStep::Finished(final_slot), changes_step },
            Some(new_step),
        ) == new_step,
{
}

/// The error text when sending what a turn decided takes too long: nothing
/// is sent on a final-state error.
pub open spec fn send_timeout_text(decision: TurnDecision) -> Option<Seq<char>> {
    match decision {
        TurnDecision::FinalStateError => None,
        TurnDecision::SendSlotTooOld => Some("SlotTooOld message send timed out"@),
        TurnDecision::SendFinished => Some("bootstrap ask ledger part send timed out"@),
        TurnDecision::SendPart => Some("bootstrap ask ledger part send timed out"@),
    }
}

/// The error text when sending what a turn decided takes too long.
pub fn send_timeout_message(decision: TurnDecision) -> (s: Option<String>)
    ensures
        match s {
            Some(t) => send_timeout_text(decision) == Some(t@),
            None => send_timeout_text(decision) is None,
        },
{
    match decision {
        TurnDecision::FinalStateError => None,
        TurnDecision::SendSlotTooOld => Some(String::from_str("SlotTooOld message send timed out")),
        TurnDecision::SendFinished => Some(String::from_str("bootstrap ask ledger part send timed out")),
        TurnDecision::SendPart => Some(String::from_str("bootstrap ask ledger part send timed out")),
    }
}

/// A stream ends with `BootstrapFinished` only once the final state, its
/// changes and the consensus graph are all fully sent.
pub proof fn lemma_finished_means_everything_sent<G>(turn: StreamTurn, consensus_step: StreamingStep<G>)
    requires
        turn_decision(turn, consensus_step) == TurnDecision::SendFinished,
    ensures
        turn matches StreamTurn::Continue { global_step, changes_step } && global_step is Finished
            && changes_step is Finished,
        consensus_step is Finished,
{
}

} // verus!
