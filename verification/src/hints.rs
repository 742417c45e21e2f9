//! Branch hints: identity functions that mark a boolean as the likely or the
//! unlikely outcome of a test.
use vstd::prelude::*;

verus! {

/// Marks a code path as rarely taken. Does nothing.
pub fn cold() {
}

/// Returns `b` unchanged; marks `false` as the rare outcome.
pub fn _likely(b: bool) -> (r: bool)
    ensures
        r == b,
{
    if !b {
        cold()
    }
    b
}

/// Returns `b` unchanged; marks `true` as the rare outcome.
pub fn unlikely(b: bool) -> (r: bool)
    ensures
        r == b,
{
    if b {
        cold()
    }
    b
}

} // verus!
