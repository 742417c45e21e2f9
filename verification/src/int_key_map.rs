//! Std hash maps and sets over structured keys that have an exact integer
//! code: the table is a `HashMap<u128, V>` keyed by the code, and its view is
//! a `Map<K, V>` keyed by the structured value.
use vstd::prelude::*;
use std::collections::HashMap;
use vstd::relations::injective_on;
use vstd::std_specs::iter::IteratorSpec;

verus! {

broadcast use vstd::std_specs::hash::group_hash_axioms;

/// Time elapsed from `then` to `now`, zero when `then` lies after `now`.
pub open spec fn elapsed(now: u64, then: u64) -> int {
    if now >= then {
        now - then
    } else {
        0
    }
}

/// The entries of `m` whose time stamp is at most `max_age` before `now`.
pub open spec fn recent_part<K>(m: Map<K, u64>, now: u64, max_age: u64) -> Map<K, u64> {
    m.restrict(m.dom().filter(|k: K| elapsed(now, m[k]) <= max_age))
}

/// Keys with an integer code from which they can be read back.
pub trait IntKey: Sized + Copy {
    /// The code of a key.
    spec fn code(self) -> u128;

    /// The key that a code stands for.
    spec fn decode(c: u128) -> Self;

    /// Every key is read back from its code.
    proof fn lemma_decode_code(k: Self)
        ensures
            Self::decode(k.code()) == k,
    ;

    /// Computes the code of a key.
    fn encode(&self) -> (c: u128)
        ensures
            c == self.code(),
    ;
}

/// A 32-bit integer is its own code.
impl IntKey for u32 {
    open spec fn code(self) -> u128 {
        self as u128
    }

    open spec fn decode(c: u128) -> u32 {
        c as u32
    }

    proof fn lemma_decode_code(k: u32) {
    }

    fn encode(&self) -> (c: u128) {
        *self as u128
    }
}

/// A 128-bit integer is its own code.
impl IntKey for u128 {
    open spec fn code(self) -> u128 {
        self
    }

    open spec fn decode(c: u128) -> u128 {
        c
    }

    proof fn lemma_decode_code(k: u128) {
    }

    fn encode(&self) -> (c: u128) {
        *self
    }
}

/// A hash map keyed by the codes of keys of type `K`.
pub struct IntKeyMap<K: IntKey, V> {
    table: HashMap<u128, V>,
    _key: std::marker::PhantomData<K>,
}

impl<K: IntKey, V> View for IntKeyMap<K, V> {
    type V = Map<K, V>;

    closed spec fn view(&self) -> Map<K, V> {
        Map::new(|k: K| self.table@.contains_key(k.code()), |k: K| self.table@[k.code()])
    }
}

impl<K: IntKey, V> IntKeyMap<K, V> {
    /// Every entry of the table is the code of some key.
    #[verifier::type_invariant]
    closed spec fn codes_only(self) -> bool {
        forall|c: u128| #[trigger] self.table@.contains_key(c) ==> K::decode(c).code() == c
    }

    proof fn lemma_view(&self)
        requires
            self.codes_only(),
        ensures
            self@.dom() == self.table@.dom().map(|c: u128| K::decode(c)),
            self@.dom().finite(),
            self@.len() == self.table@.len(),
    {
        let f = |c: u128| K::decode(c);
        assert forall|k: K| self@.dom().contains(k) <==> #[trigger] self.table@.dom().map(f).contains(
            k,
        ) by {
            if self@.dom().contains(k) {
                K::lemma_decode_code(k);
                assert(self.table@.dom().contains(k.code()));
            }
            if self.table@.dom().map(f).contains(k) {
                let c = choose|c: u128| self.table@.dom().contains(c) && f(c) == k;
                assert(k.code() == c);
            }
        }
        assert(self@.dom() =~= self.table@.dom().map(f));
        assert forall|a: u128, b: u128|
            self.table@.dom().contains(a) && self.table@.dom().contains(b) && #[trigger] f(a)
                == #[trigger] f(b) implies a == b by {
            assert(K::decode(a).code() == a);
            assert(K::decode(b).code() == b);
        }
        assert(injective_on(f, self.table@.dom()));
        vstd::set_lib::lemma_map_size(self.table@.dom(), self@.dom(), f);
    }

    /// The map has finitely many keys: each is read back from a code in the
    /// table.
    pub proof fn lemma_dom_finite(&self)
        ensures
            self@.dom().finite(),
    {
        let f = |c: u128| K::decode(c);
        let img = self.table@.dom().map(f);
        self.table@.dom().lemma_map_finite(f);
        assert forall|k: K| self@.dom().contains(k) implies #[trigger] img.contains(k) by {
            K::lemma_decode_code(k);
            assert(self.table@.dom().contains(k.code()) && f(k.code()) == k);
        }
        vstd::set_lib::lemma_set_subset_finite(img, self@.dom());
    }

    /// An empty map.
    pub fn new() -> (m: Self)
        ensures
            m@ == Map::<K, V>::empty(),
    {
        let m = IntKeyMap { table: HashMap::new(), _key: std::marker::PhantomData };
        assert(m@ =~= Map::<K, V>::empty());
        m
    }

    /// The number of keys.
    pub fn len(&self) -> (n: usize)
        ensures
            n == self@.len(),
            self@.dom().finite(),
    {
        proof {
            use_type_invariant(self);
            self.lemma_view();
        }
        self.table.len()
    }

    /// Whether `k` has an entry.
    pub fn contains_key(&self, k: &K) -> (b: bool)
        ensures
            b == self@.contains_key(*k),
    {
        let c = k.encode();
        self.table.contains_key(&c)
    }

    /// The value stored for `k`, if any.
    pub fn get(&self, k: &K) -> (r: Option<&V>)
        ensures
            match r {
                Some(v) => self@.contains_key(*k) && *v == self@[*k],
                None => !self@.contains_key(*k),
            },
    {
        let c = k.encode();
        self.table.get(&c)
    }

    /// Stores `v` for `k`, replacing any earlier value.
    pub fn insert(&mut self, k: K, v: V)
        ensures
            final(self)@ == old(self)@.insert(k, v),
    {
        proof {
            use_type_invariant(&*self);
            K::lemma_decode_code(k);
        }
        let c = k.encode();
        let ghost before = self@;
        let mut table: HashMap<u128, V> = HashMap::new();
        std::mem::swap(&mut table, &mut self.table);
        table.insert(c, v);
        self.table = table;
        proof {
            K::lemma_decode_code(k);
            assert forall|kk: K| #[trigger] self@.contains_key(kk) == before.insert(k, v).contains_key(kk)
                by {
                if kk.code() == c && kk != k {
                    K::lemma_decode_code(kk);
                }
            }
            assert forall|kk: K| #[trigger] self@.contains_key(kk) implies self@[kk] == before.insert(
                k,
                v,
            )[kk] by {
                if kk.code() == c && kk != k {
                    K::lemma_decode_code(kk);
                }
            }
            assert(self@ =~= before.insert(k, v));
        }
    }

    /// Removes the entry for `k`, handing back its value.
    pub fn remove(&mut self, k: &K) -> (r: Option<V>)
        ensures
            final(self)@ == old(self)@.remove(*k),
            match r {
                Some(v) => old(self)@.contains_key(*k) && v == old(self)@[*k],
                None => !old(self)@.contains_key(*k),
            },
    {
        proof {
            use_type_invariant(&*self);
        }
        let c = k.encode();
        let ghost before = self@;
        let mut table: HashMap<u128, V> = HashMap::new();
        std::mem::swap(&mut table, &mut self.table);
        let r = table.remove(&c);
        self.table = table;
        proof {
            K::lemma_decode_code(*k);
            assert forall|kk: K| #[trigger] self@.contains_key(kk) == before.remove(*k).contains_key(kk)
                by {
                if kk.code() == c && kk != *k {
                    K::lemma_decode_code(kk);
                }
            }
            assert(self@ =~= before.remove(*k));
        }
        r
    }

    /// Removes every entry.
    pub fn clear(&mut self)
        ensures
            final(self)@ == Map::<K, V>::empty(),
    {
        self.table = HashMap::new();
        assert(self@ =~= Map::<K, V>::empty());
    }
}

impl<K: IntKey, V: Clone> IntKeyMap<K, V> {
    /// A copy of the map.
    pub fn duplicate(&self) -> (m: Self)
        ensures
            m@ == self@,
    {
        proof {
            use_type_invariant(self);
        }
        IntKeyMap { table: self.table.clone(), _key: std::marker::PhantomData }
    }
}

impl<K: IntKey> IntKeyMap<K, u64> {
    /// Keeps only the entries whose time stamp lies at most `max_age` before
    /// `now` (a stamp after `now` counts as no time elapsed).
    pub fn retain_recent(&mut self, now: u64, max_age: u64)
        ensures
            final(self)@ == recent_part(old(self)@, now, max_age),
    {
        proof {
            use_type_invariant(&*self);
        }
        let ghost before = self@;
        let ghost t0 = self.table@;
        let stale = stale_codes(&self.table, now, max_age);
        let mut table: HashMap<u128, u64> = HashMap::new();
        std::mem::swap(&mut table, &mut self.table);
        let mut i: usize = 0;
        while i < stale.len()
            invariant
                i <= stale.len(),
                forall|c: u128|
                    stale@.contains(c) <==> t0.contains_key(c) && elapsed(now, t0[c]) > max_age,
                forall|c: u128| #[trigger]
                    table@.contains_key(c) <==> t0.contains_key(c) && !stale@.take(
                        i as int,
                    ).contains(c),
                forall|c: u128| #[trigger] table@.contains_key(c) ==> table@[c] == t0[c],
            decreases stale.len() - i,
        {
            broadcast use vstd::seq_lib::group_seq_properties;

            table.remove(&stale[i]);
            assert(stale@.take(i + 1) == stale@.take(i as int).push(stale@[i as int]));
            i = i + 1;
        }
        assert(stale@.take(i as int) == stale@);
        self.table = table;
        proof {
            assert forall|k: K| #[trigger] self@.contains_key(k) == recent_part(
                before,
                now,
                max_age,
            ).contains_key(k) by {
                K::lemma_decode_code(k);
            }
            assert(self@ =~= recent_part(before, now, max_age));
        }
    }
}

/// The codes in `table` whose time stamp lies more than `max_age` before `now`.
fn stale_codes(table: &HashMap<u128, u64>, now: u64, max_age: u64) -> (v: Vec<u128>)
    ensures
        forall|c: u128|
            v@.contains(c) <==> table@.contains_key(c) && elapsed(now, table@[c]) > max_age,
{
    let mut v: Vec<u128> = Vec::new();
    for c in it: table.keys()
        invariant
            it.seq() == vstd::std_specs::hash::spec_keys_iter(table).remaining(),
            forall|x: u128|
                v@.contains(x) <==> (exists|j: int| 0 <= j < it.index() && *it.seq()[j] == x)
                    && table@.contains_key(x) && elapsed(now, table@[x]) > max_age,
    {
        let ghost idx = it.index();
        let ghost before = v@;
        assert(*c == *it.seq()[idx]);
        let t = table.get(c);
        if t.is_some() && now.saturating_sub(*t.unwrap()) > max_age {
            v.push(*c);
        }
        assert forall|x: u128|
            v@.contains(x) <==> (exists|j: int| 0 <= j < idx + 1 && *it.seq()[j] == x)
                && table@.contains_key(x) && elapsed(now, table@[x]) > max_age by {
            broadcast use vstd::seq_lib::group_seq_properties;

            if x == *c {
                assert(*it.seq()[idx] == x);
            } else {
                assert(v@.contains(x) <==> before.contains(x));
                if exists|j: int| 0 <= j < idx + 1 && *it.seq()[j] == x {
                    let j = choose|j: int| 0 <= j < idx + 1 && *it.seq()[j] == x;
                    assert(j < idx);
                }
            }
        }
    }
    v
}

/// A hash set of keys of type `K`, held by their codes.
pub struct IntKeySet<K: IntKey> {
    members: IntKeyMap<K, ()>,
}

impl<K: IntKey> View for IntKeySet<K> {
    type V = Set<K>;

    closed spec fn view(&self) -> Set<K> {
        self.members@.dom()
    }
}

impl<K: IntKey> IntKeySet<K> {
    /// An empty set.
    pub fn new() -> (s: Self)
        ensures
            s@ == Set::<K>::empty(),
    {
        let s = IntKeySet { members: IntKeyMap::new() };
        assert(s@ =~= Set::<K>::empty());
        s
    }

    /// The number of members.
    pub fn len(&self) -> (n: usize)
        ensures
            n == self@.len(),
            self@.finite(),
    {
        self.members.len()
    }

    /// Whether `k` is a member.
    pub fn contains(&self, k: &K) -> (b: bool)
        ensures
            b == self@.contains(*k),
    {
        self.members.contains_key(k)
    }

    /// Adds `k`; tells whether it was new.
    pub fn insert(&mut self, k: K) -> (added: bool)
        ensures
            final(self)@ == old(self)@.insert(k),
            added == !old(self)@.contains(k),
    {
        let added = !self.members.contains_key(&k);
        self.members.insert(k, ());
        assert(self@ =~= old(self)@.insert(k));
        added
    }

    /// Removes every member.
    pub fn clear(&mut self)
        ensures
            final(self)@ == Set::<K>::empty(),
    {
        self.members.clear();
        assert(self@ =~= Set::<K>::empty());
    }

    /// A copy of the set.
    pub fn duplicate(&self) -> (s: Self)
        ensures
            s@ == self@,
    {
        IntKeySet { members: self.members.duplicate() }
    }
}

} // verus!
