//! Slots of the block graph and the cursors used to stream state.
use vstd::prelude::*;
use crate::int_key_map::IntKey;

verus! {

/// A slot: a period and a thread within it. Slots are ordered by period, then
/// by thread.
#[derive(Clone, Copy, Debug, PartialEq, Eq, Structural)]
pub struct Slot {
    pub period: u64,
    pub thread: u8,
}

/// `a` comes strictly before `b`.
pub open spec fn slot_before(a: Slot, b: Slot) -> bool {
    a.period < b.period || (a.period == b.period && a.thread < b.thread)
}

impl Slot {
    pub fn new(period: u64, thread: u8) -> (s: Slot)
        ensures
            s.period == period,
            s.thread == thread,
    {
        Slot { period, thread }
    }

    /// Whether `self` comes strictly after `other`.
    pub fn is_after(&self, other: &Slot) -> (r: bool)
        ensures
            r == slot_before(*other, *self),
    {
        self.period > other.period || (self.period == other.period && self.thread > other.thread)
    }
}

/// A slot's code: its period times 256 plus its thread.
impl IntKey for Slot {
    open spec fn code(self) -> u128 {
        (self.period * 256 + self.thread) as u128
    }

    open spec fn decode(c: u128) -> Slot {
        Slot { period: (c / 256) as u64, thread: (c % 256) as u8 }
    }

    proof fn lemma_decode_code(k: Slot) {
        let c = k.period * 256 + k.thread;
        assert(c / 256 == k.period && c % 256 == k.thread) by (nonlinear_arith)
            requires
                c == k.period * 256 + k.thread,
                0 <= k.thread < 256,
        ;
    }

    fn encode(&self) -> (c: u128) {
        (self.period as u128) * 256 + (self.thread as u128)
    }
}

/// Progress of streaming one part of the state to a bootstrapping client.
#[derive(Debug)]
pub enum StreamingStep<T> {
    /// Nothing sent yet.
    Started,
    /// Sent up to the given cursor.
    Ongoing(T),
    /// Everything sent, with the last cursor if there was one.
    Finished(Option<T>),
}

impl<T> StreamingStep<T> {
    /// Whether streaming of this part is over.
    pub fn finished(&self) -> (r: bool)
        ensures
            r == (*self is Finished),
    {
        match self {
            StreamingStep::Finished(_) => true,
            _ => false,
        }
    }
}

} // verus!
