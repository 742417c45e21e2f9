//! Network addresses as plain values.
use vstd::prelude::*;

verus! {

/// An IP address: a version-4 address as its 32 bits, or a version-6 address
/// as its 128 bits. The two families never compare equal.
#[derive(Clone, Copy, Debug, PartialEq, Eq, Structural)]
pub enum IpKey {
    V4(u32),
    V6(u128),
}

} // verus!
