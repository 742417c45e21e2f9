//! Fixed-size identifiers: public keys of peers, private keys and addresses.
use vstd::prelude::*;
use crate::vec_map::KeyEq;

verus! {

/// 32 bytes, as four big-endian 64-bit words.
#[derive(Clone, Copy, Debug, PartialEq, Eq, Hash, Structural)]
pub struct Key32 {
    pub w0: u64,
    pub w1: u64,
    pub w2: u64,
    pub w3: u64,
}

/// The identifier of a peer: its public key.
#[derive(Clone, Copy, Debug, PartialEq, Eq, Hash, Structural)]
pub struct PeerId(pub Key32);

/// A private key held by the wallet.
#[derive(Clone, Copy, Debug, PartialEq, Eq, Hash, Structural)]
pub struct PrivateKey(pub Key32);

/// An address: the hash of a public key.
#[derive(Clone, Copy, Debug, PartialEq, Eq, Hash, Structural)]
pub struct Address(pub Key32);

impl KeyEq for PeerId {
    fn same_key(&self, other: &Self) -> (r: bool) {
        *self == *other
    }
}

} // verus!
