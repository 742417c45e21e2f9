//! Speculative tracking of processed denunciations during execution.
//!
//! A denunciation counts as processed if the current speculative changes hold
//! it, else if the history of recently executed slots knows about it, else if
//! the final state holds it. The history and the final state live behind
//! shared locks; what they answer is handed in.
use vstd::prelude::*;
use crate::slot::Slot;
use crate::int_key_map::{IntKey, IntKeySet};

verus! {

/// Identifies a denunciation: of a block header by its slot, or of an
/// endorsement by its slot and index.
#[derive(Clone, Copy, Debug, PartialEq, Eq, Structural)]
pub enum DenunciationIndex {
    BlockHeader { slot: Slot },
    Endorsement { slot: Slot, index: u32 },
}

/// A denunciation index's code: twice the code of its slot and index (index
/// 0 for a block header, whose code is then even), plus one for an
/// endorsement.
impl IntKey for DenunciationIndex {
    open spec fn code(self) -> u128 {
        match self {
            DenunciationIndex::BlockHeader { slot } => (slot.code() * 0x2_0000_0000) as u128,
            DenunciationIndex::Endorsement { slot, index } => ((slot.code() * 0x1_0000_0000 + index)
                * 2 + 1) as u128,
        }
    }

    open spec fn decode(c: u128) -> DenunciationIndex {
        let e = c / 2;
        if c % 2 == 0 {
            DenunciationIndex::BlockHeader { slot: Slot::decode((e / 0x1_0000_0000) as u128) }
        } else {
            DenunciationIndex::Endorsement {
                slot: Slot::decode((e / 0x1_0000_0000) as u128),
                index: (e % 0x1_0000_0000) as u32,
            }
        }
    }

    proof fn lemma_decode_code(k: DenunciationIndex) {
        match k {
            DenunciationIndex::BlockHeader { slot } => {
                Slot::lemma_decode_code(slot);
                let s = slot.code() as int;
                let c = s * 0x2_0000_0000;
                assert(c % 2 == 0 && (c / 2) / 0x1_0000_0000 == s) by (nonlinear_arith)
                    requires
                        c == s * 0x2_0000_0000,
                        s >= 0,
                ;
            },
            DenunciationIndex::Endorsement { slot, index } => {
                Slot::lemma_decode_code(slot);
                let s = slot.code() as int;
                let e = s * 0x1_0000_0000 + index;
                let c = e * 2 + 1;
                assert(c % 2 == 1 && c / 2 == e && e / 0x1_0000_0000 == s && e % 0x1_0000_0000
                    == index) by (nonlinear_arith)
                    requires
                        e == s * 0x1_0000_0000 + index,
                        c == e * 2 + 1,
                        s >= 0,
                        0 <= index < 0x1_0000_0000,
                ;
            },
        }
    }

    fn encode(&self) -> (c: u128) {
        match self {
            DenunciationIndex::BlockHeader { slot } => slot.encode() * 0x2_0000_0000,
            DenunciationIndex::Endorsement { slot, index } => (slot.encode() * 0x1_0000_0000
                + (*index as u128)) * 2 + 1,
        }
    }
}

/// A set of processed denunciations.
pub struct ProcessedDenunciationsChanges {
    set: IntKeySet<DenunciationIndex>,
}

impl View for ProcessedDenunciationsChanges {
    type V = Set<DenunciationIndex>;

    closed spec fn view(&self) -> Set<DenunciationIndex> {
        self.set@
    }
}

impl ProcessedDenunciationsChanges {
    /// No processed denunciation.
    pub fn new() -> (c: Self)
        ensures
            c@ == Set::<DenunciationIndex>::empty(),
    {
        ProcessedDenunciationsChanges { set: IntKeySet::new() }
    }

    /// Whether `de_idx` is in the set.
    pub fn contains(&self, de_idx: &DenunciationIndex) -> (b: bool)
        ensures
            b == self@.contains(*de_idx),
    {
        self.set.contains(de_idx)
    }

    /// Adds `de_idx`.
    pub fn insert(&mut self, de_idx: DenunciationIndex)
        ensures
            final(self)@ == old(self)@.insert(de_idx),
    {
        self.set.insert(de_idx);
    }

    /// The number of denunciations in the set.
    pub fn len(&self) -> (n: usize)
        ensures
            n == self@.len(),
            self@.finite(),
    {
        self.set.len()
    }

    /// A copy of the set.
    pub fn duplicate(&self) -> (c: Self)
        ensures
            c@ == self@,
    {
        ProcessedDenunciationsChanges { set: self.set.duplicate() }
    }
}

/// What the history of recently executed slots knows about a denunciation.
#[derive(Debug)]
pub enum HistorySearchResult<T> {
    /// It was processed there.
    Present(T),
    /// The history is known not to hold it.
    Absent,
    /// The history cannot tell.
    NoInfo,
}

/// Whether `de_idx` counts as processed, given the current changes, the
/// history's answer and whether the final state holds it.
pub open spec fn de_processed<T>(
    changes: Set<DenunciationIndex>,
    de_idx: DenunciationIndex,
    history: HistorySearchResult<T>,
    in_final_state: bool,
) -> bool {
    if changes.contains(de_idx) {
        true
    } else {
        match history {
            HistorySearchResult::Present(_) => true,
            HistorySearchResult::Absent => false,
            HistorySearchResult::NoInfo => in_final_state,
        }
    }
}

/// The processed denunciations of one speculative execution.
pub struct SpeculativeProcessedDenunciations {
    /// Denunciations processed since creation.
    processed_denunciations: ProcessedDenunciationsChanges,
}

impl View for SpeculativeProcessedDenunciations {
    type V = Set<DenunciationIndex>;

    closed spec fn view(&self) -> Set<DenunciationIndex> {
        self.processed_denunciations@
    }
}

impl SpeculativeProcessedDenunciations {
    /// Creates a new `SpeculativeProcessedDenunciations` with no change.
    pub fn new() -> (s: Self)
        ensures
            s@ == Set::<DenunciationIndex>::empty(),
    {
        SpeculativeProcessedDenunciations { processed_denunciations: ProcessedDenunciationsChanges::new() }
    }

    /// Returns the denunciations processed since creation and resets the
    /// local changes to nothing.
    pub fn take(&mut self) -> (c: ProcessedDenunciationsChanges)
        ensures
            c@ == old(self)@,
            final(self)@ == Set::<DenunciationIndex>::empty(),
    {
        let mut c = ProcessedDenunciationsChanges::new();
        std::mem::swap(&mut c, &mut self.processed_denunciations);
        c
    }

    /// Takes a snapshot (copy) of the changes since creation.
    pub fn get_snapshot(&self) -> (c: ProcessedDenunciationsChanges)
        ensures
            c@ == self@,
    {
        self.processed_denunciations.duplicate()
    }

    /// Resets the changes to a snapshot (see `get_snapshot`).
    pub fn reset_to_snapshot(&mut self, snapshot: ProcessedDenunciationsChanges)
        ensures
            final(self)@ == snapshot@,
    {
        self.processed_denunciations = snapshot;
    }

    /// Checks whether a denunciation was processed previously: in the current
    /// changes, else in the history (`history`, searched backwards), else in
    /// the final state (`in_final_state`), which is consulted only when the
    /// history has no information.
    pub fn is_de_processed<T>(
        &self,
        de_idx: &DenunciationIndex,
        history: HistorySearchResult<T>,
        in_final_state: bool,
    ) -> (b: bool)
        ensures
            b == de_processed(self@, *de_idx, history, in_final_state),
            // a denunciation recorded here is processed
            self@.contains(*de_idx) ==> b,
            // otherwise the history decides when it knows
            !self@.contains(*de_idx) && history is Present ==> b,
            !self@.contains(*de_idx) && history is Absent ==> !b,
            // and the final state when it does not
            !self@.contains(*de_idx) && history is NoInfo ==> b == in_final_state,
    {
        if self.processed_denunciations.contains(de_idx) {
            return true;
        }
        match history {
            HistorySearchResult::Present(_) => {
                return true;
            },
            HistorySearchResult::Absent => {
                return false;
            },
            HistorySearchResult::NoInfo => {},
        }
        in_final_state
    }

    /// Records a processed denunciation. Does not check for reuse: call
    /// `is_de_processed` first.
    pub fn insert_processed_de(&mut self, de_idx: DenunciationIndex)
        ensures
            final(self)@ == old(self)@.insert(de_idx),
    {
        self.processed_denunciations.insert(de_idx);
    }
}

/// Once recorded, a denunciation counts as processed whatever the history and
/// the final state say.
pub proof fn lemma_recorded_is_processed<T>(
    changes: Set<DenunciationIndex>,
    de_idx: DenunciationIndex,
    history: HistorySearchResult<T>,
    in_final_state: bool,
)
    ensures
        de_processed(changes.insert(de_idx), de_idx, history, in_final_state),
{
}

/// Recording a denunciation never makes another one stop counting as
/// processed.
pub proof fn lemma_recording_is_monotone<T>(
    changes: Set<DenunciationIndex>,
    recorded: DenunciationIndex,
    de_idx: DenunciationIndex,
    history: HistorySearchResult<T>,
    in_final_state: bool,
)
    requires
        de_processed(changes, de_idx, history, in_final_state),
    ensures
        de_processed(changes.insert(recorded), de_idx, history, in_final_state),
{
}

/// A denunciation that was not recorded here counts as processed exactly
/// when the history says it was, or, when the history has no information,
/// exactly when the final state holds it, whatever else was recorded.
pub proof fn lemma_unrecorded_defers<T>(
    changes: Set<DenunciationIndex>,
    de_idx: DenunciationIndex,
    history: HistorySearchResult<T>,
    in_final_state: bool,
)
    requires
        !changes.contains(de_idx),
    ensures
        history is NoInfo ==> de_processed(changes, de_idx, history, in_final_state)
            == in_final_state,
        history is Present ==> de_processed(changes, de_idx, history, in_final_state),
        history is Absent ==> !de_processed(changes, de_idx, history, in_final_state),
{
}

/// With no local change, the answer is that of the history, or of the final
/// state when the history has no information.
pub proof fn lemma_empty_changes_defer<T>(
    de_idx: DenunciationIndex,
    history: HistorySearchResult<T>,
    in_final_state: bool,
)
    ensures
        de_processed(Set::empty(), de_idx, history, in_final_state) == match history {
            HistorySearchResult::Present(_) => true,
            HistorySearchResult::Absent => false,
            HistorySearchResult::NoInfo => in_final_state,
        },
{
}

} // verus!
