//! The wallet's key store: the private keys it holds and the file it saves
//! them to.
//!
//! Deriving a key's public key and address is cryptography done outside the
//! library; the functions that search by address take, for each key in
//! order, the address derived from it (`None` where derivation failed).
use vstd::prelude::*;
use crate::keys::{Address, PrivateKey};

verus! {

/// Contains the private keys created in the wallet.
#[derive(Debug)]
pub struct Wallet {
    keys: Vec<PrivateKey>,
    wallet_path: String,
}

/// The index of the first key whose derived address is `address`, if any.
pub open spec fn first_key_for(derived: Seq<Option<Address>>, address: Address) -> Option<int> {
    if exists|i: int| 0 <= i < derived.len() && derived[i] == Some(address) {
        Some(
            choose|i: int|
                0 <= i < derived.len() && derived[i] == Some(address) && forall|j: int|
                    0 <= j < i ==> derived[j] != Some(address),
        )
    } else {
        None
    }
}

proof fn lemma_first_key_for(derived: Seq<Option<Address>>, address: Address, i: int)
    requires
        0 <= i < derived.len(),
        derived[i] == Some(address),
        forall|j: int| 0 <= j < i ==> derived[j] != Some(address),
    ensures
        first_key_for(derived, address) == Some(i),
{
    let k = choose|k: int|
        0 <= k < derived.len() && derived[k] == Some(address) && forall|j: int|
            0 <= j < k ==> derived[j] != Some(address);
    assert(0 <= k < derived.len() && derived[k] == Some(address) && forall|j: int|
        0 <= j < k ==> derived[j] != Some(address));
    if k < i {
        assert(derived[k] != Some(address));
    } else if k > i {
        assert(derived[i] != Some(address));
    }
}

impl Wallet {
    /// A wallet saved to `json_file`, holding the keys read from that file
    /// (`stored_keys`), or none if there is no such file.
    pub fn new(json_file: &str, stored_keys: Option<Vec<PrivateKey>>) -> (w: Wallet)
        ensures
            w.spec_keys() == match stored_keys {
                Some(k) => k@,
                None => Seq::<PrivateKey>::empty(),
            },
            w.spec_wallet_path() == json_file@,
    {
        let keys = match stored_keys {
            Some(k) => k,
            None => Vec::new(),
        };
        Wallet { keys, wallet_path: String::from_str(json_file) }
    }

    pub closed spec fn spec_keys(&self) -> Seq<PrivateKey> {
        self.keys@
    }

    pub closed spec fn spec_wallet_path(&self) -> Seq<char> {
        self.wallet_path@
    }

    /// The private keys, in the order they were added.
    pub fn keys(&self) -> (k: &Vec<PrivateKey>)
        ensures
            k@ == self.spec_keys(),
    {
        &self.keys
    }

    /// The file the wallet is saved to.
    pub fn wallet_path(&self) -> (p: &String)
        ensures
            p@ == self.spec_wallet_path(),
    {
        &self.wallet_path
    }

    /// Adds a new private key to the wallet, if it was missing. Returns
    /// whether it was added, that is, whether the wallet must be saved.
    pub fn add_private_key(&mut self, key: PrivateKey) -> (added: bool)
        ensures
            added == !old(self).spec_keys().contains(key),
            final(self).spec_keys() == (if added {
                old(self).spec_keys().push(key)
            } else {
                old(self).spec_keys()
            }),
            final(self).spec_wallet_path() == old(self).spec_wallet_path(),
    {
        let n = self.keys.len();
        let mut i: usize = 0;
        while i < n
            invariant
                n == self.keys@.len(),
                i <= n,
                forall|j: int| 0 <= j < i ==> self.keys@[j] != key,
            decreases n - i,
        {
            if self.keys[i] == key {
                proof {
                    assert(self.keys@[i as int] == key);
                }
                return false;
            }
            i = i + 1;
        }
        self.keys.push(key);
        true
    }

    /// Finds the private key associated with `address`: the first key whose
    /// derived address (`derived`, one per key, in order) is `address`.
    pub fn find_associated_private_key(&self, address: Address, derived: &Vec<Option<Address>>) -> (r:
        Option<&PrivateKey>)
        requires
            derived@.len() == self.spec_keys().len(),
        ensures
            match first_key_for(derived@, address) {
                Some(i) => r == Some(&self.spec_keys()[i]),
                None => r is None,
            },
            // the key found is the first one whose address is `address`
            r matches Some(k) ==> exists|i: int|
                0 <= i < derived@.len() && derived@[i] == Some(address) && *k
                    == self.spec_keys()[i] && forall|j: int|
                    0 <= j < i ==> #[trigger] derived@[j] != Some(address),
            // and none is found only if no key has that address
            r is None ==> forall|i: int| 0 <= i < derived@.len() ==> #[trigger] derived@[i] != Some(address),
    {
        let n = self.keys.len();
        let mut i: usize = 0;
        while i < n
            invariant
                n == self.keys@.len(),
                n == derived@.len(),
                i <= n,
                forall|j: int| 0 <= j < i ==> derived@[j] != Some(address),
            decreases n - i,
        {
            let found = match derived[i] {
                Some(a) => a == address,
                None => false,
            };
            if found {
                proof {
                    lemma_first_key_for(derived@, address, i as int);
                }
                return Some(&self.keys[i]);
            }
            i = i + 1;
        }
        None
    }

    /// The addresses of the wallet's keys, given the address derived from
    /// each key in order; derivation must have succeeded for every key.
    pub fn get_wallet_address_list(&self, derived: &Vec<Option<Address>>) -> (r: Vec<Address>)
        requires
            derived@.len() == self.spec_keys().len(),
            forall|i: int| 0 <= i < derived@.len() ==> derived@[i] is Some,
        ensures
            r@.len() == self.spec_keys().len(),
            forall|i: int| 0 <= i < derived@.len() ==> derived@[i] == Some(#[trigger] r@[i]),
    {
        address_list(derived)
    }
}

fn address_list(derived: &Vec<Option<Address>>) -> (r: Vec<Address>)
    requires
        forall|i: int| 0 <= i < derived@.len() ==> derived@[i] is Some,
    ensures
        r@.len() == derived@.len(),
        forall|i: int| 0 <= i < derived@.len() ==> derived@[i] == Some(#[trigger] r@[i]),
{
    let mut r: Vec<Address> = Vec::new();
    let n = derived.len();
    let mut i: usize = 0;
    while i < n
        invariant
            n == derived@.len(),
            i <= n,
            forall|j: int| 0 <= j < n ==> derived@[j] is Some,
            r@.len() == i,
            forall|j: int| 0 <= j < i ==> derived@[j] == Some(#[trigger] r@[j]),
        decreases n - i,
    {
        match derived[i] {
            Some(a) => r.push(a),
            None => {},
        }
        i = i + 1;
    }
    r
}

/// A key already held is never added twice: the wallet holds no duplicate
/// key if it held none before.
pub proof fn lemma_no_duplicate_keys(keys: Seq<PrivateKey>, key: PrivateKey)
    requires
        keys.no_duplicates(),
    ensures
        (if keys.contains(key) {
            keys
        } else {
            keys.push(key)
        }).no_duplicates(),
{
    if !keys.contains(key) {
        let k2 = keys.push(key);
        assert forall|i: int, j: int| 0 <= i < k2.len() && 0 <= j < k2.len() && i != j implies k2[i]
            != k2[j] by {
            if i < keys.len() && j < keys.len() {
            } else if i < keys.len() {
                assert(keys[i] != key);
            } else {
                assert(keys[j] != key);
            }
        }
    }
}

} // verus!
