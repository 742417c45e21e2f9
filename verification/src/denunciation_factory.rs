//! The caches with which the denunciation factory spots double production.
//!
//! Block headers are keyed by their slot, endorsements by their slot and
//! index. The first item seen for a key is stored; the second completes a
//! pair, from which a denunciation is built; any later one is dropped. A
//! cache refuses new work once it holds more than its maximum number of keys.
use vstd::prelude::*;
use crate::slot::Slot;
use crate::int_key_map::{IntKey, IntKeyMap};

verus! {

/// At most this many block-header slots are tracked before the cache refuses work.
pub const DENUNCIATION_FACTORY_BLOCK_HEADER_CACHE_MAX_LEN: usize = 4096;

/// At most this many endorsement keys are tracked before the cache refuses work.
pub const DENUNCIATION_FACTORY_ENDORSEMENT_CACHE_MAX_LEN: usize = 4096;

/// The key of an endorsement: its slot and its index in the slot.
#[derive(Clone, Copy, Debug, PartialEq, Eq, Structural)]
pub struct EndorsementKey {
    pub slot: Slot,
    pub index: u32,
}

/// An endorsement key's code: its slot's code times 2^32 plus its index.
impl IntKey for EndorsementKey {
    open spec fn code(self) -> u128 {
        (self.slot.code() * 0x1_0000_0000 + self.index) as u128
    }

    open spec fn decode(c: u128) -> EndorsementKey {
        EndorsementKey {
            slot: Slot::decode((c / 0x1_0000_0000) as u128),
            index: (c % 0x1_0000_0000) as u32,
        }
    }

    proof fn lemma_decode_code(k: EndorsementKey) {
        Slot::lemma_decode_code(k.slot);
        let s = k.slot.code() as int;
        let c = s * 0x1_0000_0000 + k.index;
        assert(c / 0x1_0000_0000 == s && c % 0x1_0000_0000 == k.index) by (nonlinear_arith)
            requires
                c == s * 0x1_0000_0000 + k.index,
                0 <= k.index < 0x1_0000_0000,
        ;
    }

    fn encode(&self) -> (c: u128) {
        self.slot.encode() * 0x1_0000_0000 + (self.index as u128)
    }
}

/// What happened to an item handed to a cache.
#[derive(Clone, Copy, Debug, PartialEq, Eq, Structural)]
pub enum CacheOutcome {
    /// Its key was already denounced: dropped.
    AlreadyDenounced,
    /// The cache is full: dropped.
    CacheFull,
    /// First item for its key: stored.
    Stored,
    /// Second item for its key: stored, and the pair is ready to be denounced.
    PairComplete,
    /// Its key already has a pair: dropped.
    AlreadyPaired,
}

/// The abstract state of a cache: the items stored per key, the keys already
/// denounced, and the maximum number of keys.
#[verifier::reject_recursive_types(K)]
pub struct CacheModel<K, T> {
    pub pending: Map<K, Seq<T>>,
    pub denounced: Set<K>,
    pub max_len: nat,
}

/// The cache state and outcome after handing `item`, of key `key`, to `c`.
pub open spec fn cache_step<K, T>(c: CacheModel<K, T>, key: K, item: T) -> (CacheModel<K, T>, CacheOutcome) {
    if c.denounced.contains(key) {
        (c, CacheOutcome::AlreadyDenounced)
    } else if c.denounced.len() > c.max_len || c.pending.len() > c.max_len {
        (c, CacheOutcome::CacheFull)
    } else if !c.pending.contains_key(key) {
        (
            CacheModel { pending: c.pending.insert(key, seq![item]), denounced: c.denounced, max_len: c.max_len },
            CacheOutcome::Stored,
        )
    } else if c.pending[key].len() == 1 {
        (
            CacheModel {
                pending: c.pending.insert(key, c.pending[key].push(item)),
                denounced: c.denounced,
                max_len: c.max_len,
            },
            CacheOutcome::PairComplete,
        )
    } else {
        (c, CacheOutcome::AlreadyPaired)
    }
}

/// Every key holds one or two items, and at most one key past the maximum.
pub open spec fn cache_well_formed<K, T>(c: CacheModel<K, T>) -> bool {
    &&& c.pending.dom().finite()
    &&& c.denounced.finite()
    &&& c.pending.len() <= c.max_len + 1
    &&& forall|k: K| #[trigger] c.pending.contains_key(k) ==> 1 <= c.pending[k].len() <= 2
}

/// The items stored for one key.
#[derive(Debug)]
pub enum Observed<T> {
    First(T),
    Both(T, T),
}

pub open spec fn observed_items<T>(o: Observed<T>) -> Seq<T> {
    match o {
        Observed::First(a) => seq![a],
        Observed::Both(a, b) => seq![a, b],
    }
}

/// A denunciation cache for items of type `T` keyed by `K`.
pub struct DenunciationCache<K: IntKey, T> {
    by_key: IntKeyMap<K, Observed<T>>,
    denounced: IntKeyMap<K, ()>,
    max_len: usize,
}

impl<K: IntKey, T> View for DenunciationCache<K, T> {
    type V = CacheModel<K, T>;

    closed spec fn view(&self) -> CacheModel<K, T> {
        CacheModel {
            pending: self.by_key@.map_values(|o: Observed<T>| observed_items(o)),
            denounced: self.denounced@.dom(),
            max_len: self.max_len as nat,
        }
    }
}

impl<K: IntKey, T> DenunciationCache<K, T> {
    #[verifier::type_invariant]
    closed spec fn bounded(self) -> bool {
        &&& self.by_key@.dom().finite()
        &&& self.denounced@.dom().finite()
        &&& self.by_key@.len() <= self.max_len + 1
    }
}

impl<K: IntKey, T> DenunciationCache<K, T> {
    proof fn lemma_view(&self)
        requires
            self.bounded(),
        ensures
            self@.pending.dom() == self.by_key@.dom(),
            cache_well_formed(self@),
    {
        assert(self@.pending.dom() =~= self.by_key@.dom());
        assert forall|k: K| #[trigger] self@.pending.contains_key(k) implies 1 <= self@.pending[k].len() <= 2 by {
            match self.by_key@[k] {
                Observed::First(a) => {},
                Observed::Both(a, b) => {},
            }
        }
    }

    /// An empty cache that tracks at most `max_len` keys (plus the one that
    /// reaches the limit).
    pub fn new(max_len: usize) -> (c: Self)
        ensures
            c@.pending == Map::<K, Seq<T>>::empty(),
            c@.denounced == Set::<K>::empty(),
            c@.max_len == max_len,
            cache_well_formed(c@),
    {
        let c = DenunciationCache { by_key: IntKeyMap::new(), denounced: IntKeyMap::new(), max_len };
        proof {
            assert(c@.pending =~= Map::<K, Seq<T>>::empty());
            assert(c@.denounced =~= Set::<K>::empty());
        }
        c
    }

    /// Hands `item`, of key `key`, to the cache.
    pub fn process(&mut self, key: K, item: T) -> (r: CacheOutcome)
        ensures
            (final(self)@, r) == cache_step(old(self)@, key, item),
            cache_well_formed(final(self)@),
            final(self)@.denounced == old(self)@.denounced,
            final(self)@.max_len == old(self)@.max_len,
            // a denounced key, a full cache or a complete pair: dropped
            old(self)@.denounced.contains(key) ==> r == CacheOutcome::AlreadyDenounced && final(
                self)@ == old(self)@,
            !old(self)@.denounced.contains(key) && (old(self)@.denounced.len() > old(self)@.max_len
                || old(self)@.pending.len() > old(self)@.max_len) ==> r == CacheOutcome::CacheFull
                && final(self)@ == old(self)@,
            r == CacheOutcome::AlreadyPaired ==> final(self)@ == old(self)@
                && old(self)@.pending[key].len() == 2,
            // otherwise a first item is stored alone and a second completes the pair
            r == CacheOutcome::Stored ==> !old(self)@.pending.contains_key(key) && final(
                self)@.pending == old(self)@.pending.insert(key, seq![item]),
            r == CacheOutcome::PairComplete ==> old(self)@.pending.contains_key(key) && old(
                self)@.pending[key].len() == 1 && final(self)@.pending == old(self)@.pending.insert(
                key,
                seq![old(self)@.pending[key][0], item],
            ),
            !old(self)@.denounced.contains(key) && old(self)@.denounced.len() <= old(self)@.max_len
                && old(self)@.pending.len() <= old(self)@.max_len ==> (r == CacheOutcome::Stored
                <==> !old(self)@.pending.contains_key(key)),
    {
        proof {
            use_type_invariant(&*self);
            self.lemma_view();
        }
        let ghost old_view = self@;
        let ghost m = self.by_key@;
        if self.denounced.contains_key(&key) {
            return CacheOutcome::AlreadyDenounced;
        }
        let n_denounced = self.denounced.len();
        let n_keys = self.by_key.len();
        if n_denounced > self.max_len || n_keys > self.max_len {
            return CacheOutcome::CacheFull;
        }
        let mut by_key: IntKeyMap<K, Observed<T>> = IntKeyMap::new();
        std::mem::swap(&mut by_key, &mut self.by_key);
        let r = match by_key.remove(&key) {
            None => {
                by_key.insert(key, Observed::First(item));
                proof {
                    assert(m.remove(key).insert(key, Observed::First(item)) =~= m.insert(
                        key,
                        Observed::First(item),
                    ));
                }
                CacheOutcome::Stored
            },
            Some(Observed::First(a)) => {
                by_key.insert(key, Observed::Both(a, item));
                proof {
                    assert(m.remove(key).insert(key, Observed::Both(a, item)) =~= m.insert(
                        key,
                        Observed::Both(a, item),
                    ));
                    assert(seq![a].push(item) =~= seq![a, item]);
                }
                CacheOutcome::PairComplete
            },
            Some(Observed::Both(a, b)) => {
                by_key.insert(key, Observed::Both(a, b));
                proof {
                    assert(m.remove(key).insert(key, Observed::Both(a, b)) =~= m);
                }
                CacheOutcome::AlreadyPaired
            },
        };
        self.by_key = by_key;
        proof {
            use_type_invariant(&*self);
            self.lemma_view();
            if r == CacheOutcome::Stored {
                assert(self@.pending =~= old_view.pending.insert(key, seq![item]));
            } else if r == CacheOutcome::PairComplete {
                assert(self@.pending =~= old_view.pending.insert(
                    key,
                    old_view.pending[key].push(item),
                ));
            } else {
                assert(self@.pending =~= old_view.pending);
            }
        }
        r
    }

    /// The two items stored for `key`, once its pair is complete.
    pub fn pair(&self, key: &K) -> (r: Option<(&T, &T)>)
        ensures
            match r {
                Some((a, b)) => self@.pending.contains_key(*key) && self@.pending[*key] == seq![
                    *a,
                    *b,
                ],
                None => !(self@.pending.contains_key(*key) && self@.pending[*key].len() == 2),
            },
    {
        match self.by_key.get(key) {
            Some(Observed::Both(a, b)) => Some((a, b)),
            _ => None,
        }
    }

    /// The number of keys with stored items.
    pub fn len(&self) -> (n: usize)
        ensures
            n == self@.pending.len(),
            cache_well_formed(self@),
    {
        proof {
            use_type_invariant(self);
            self.lemma_view();
        }
        self.by_key.len()
    }
}

/// After a key's pair is complete, no later item of that key completes a pair
/// again or is stored: a denunciation is produced at most once per key.
pub proof fn lemma_pair_completes_once<K, T>(c: CacheModel<K, T>, key: K, first: T, second: T)
    requires
        cache_step(c, key, first).1 == CacheOutcome::PairComplete,
    ensures
        ({
            let r = cache_step(cache_step(c, key, first).0, key, second).1;
            r != CacheOutcome::PairComplete && r != CacheOutcome::Stored
        }),
{
    let c1 = cache_step(c, key, first).0;
    assert(c1.pending[key].len() == 2);
}

/// Handing an item to a well-formed cache keeps it well formed: no key ever
/// holds more than two items, and the cache never holds more than one key
/// past its maximum.
pub proof fn lemma_step_keeps_well_formed<K, T>(c: CacheModel<K, T>, key: K, item: T)
    requires
        cache_well_formed(c),
    ensures
        cache_well_formed(cache_step(c, key, item).0),
{
    let c2 = cache_step(c, key, item).0;
    if !c.denounced.contains(key) && !(c.denounced.len() > c.max_len || c.pending.len() > c.max_len) {
        if !c.pending.contains_key(key) {
            assert(c2.pending.dom() =~= c.pending.dom().insert(key));
        } else {
            assert(c2.pending.dom() =~= c.pending.dom());
        }
    }
}

/// An item whose key is denounced, or whose key already holds a pair, or that
/// comes while the cache is full, changes nothing and completes no pair (so
/// nothing goes to the pool).
pub proof fn lemma_refusals_change_nothing<K, T>(c: CacheModel<K, T>, key: K, item: T)
    requires
        c.denounced.contains(key) || c.denounced.len() > c.max_len || c.pending.len() > c.max_len
            || (c.pending.contains_key(key) && c.pending[key].len() == 2),
    ensures
        cache_step(c, key, item).0 == c,
        cache_step(c, key, item).1 != CacheOutcome::PairComplete,
        cache_step(c, key, item).1 != CacheOutcome::Stored,
{
}

/// The first item of a key that is neither denounced nor refused for a full
/// cache is stored alone.
pub proof fn lemma_first_item_stored_alone<K, T>(c: CacheModel<K, T>, key: K, item: T)
    requires
        !c.denounced.contains(key),
        c.denounced.len() <= c.max_len,
        c.pending.len() <= c.max_len,
        !c.pending.contains_key(key),
    ensures
        cache_step(c, key, item).1 == CacheOutcome::Stored,
        cache_step(c, key, item).0.pending[key] == seq![item],
{
}

/// The cache after the items `items`, in order, each with its key.
pub open spec fn cache_after_run<K, T>(c: CacheModel<K, T>, items: Seq<(K, T)>) -> CacheModel<K, T>
    decreases items.len(),
{
    if items.len() == 0 {
        c
    } else {
        let last = items.last();
        cache_step(cache_after_run(c, items.drop_last()), last.0, last.1).0
    }
}

/// Over any run of items, a cache that starts empty keeps its limit, holds
/// one or two items per key and at most one key past its limit.
pub proof fn lemma_run_from_empty<K, T>(max_len: nat, items: Seq<(K, T)>)
    ensures
        ({
            let c = cache_after_run(
                CacheModel { pending: Map::empty(), denounced: Set::empty(), max_len },
                items,
            );
            cache_well_formed(c) && c.max_len == max_len
        }),
{
    let c0 = CacheModel::<K, T> { pending: Map::empty(), denounced: Set::empty(), max_len };
    assert(c0.pending.dom() =~= Set::<K>::empty());
    lemma_run_keeps_well_formed(c0, items);
}

/// Over any run of items, a well-formed cache stays well formed and keeps its
/// limit.
pub proof fn lemma_run_keeps_well_formed<K, T>(c: CacheModel<K, T>, items: Seq<(K, T)>)
    requires
        cache_well_formed(c),
    ensures
        cache_well_formed(cache_after_run(c, items)),
        cache_after_run(c, items).max_len == c.max_len,
    decreases items.len(),
{
    if items.len() > 0 {
        let last = items.last();
        lemma_run_keeps_well_formed(c, items.drop_last());
        lemma_step_keeps_well_formed(cache_after_run(c, items.drop_last()), last.0, last.1);
    }
}

/// Handing an item to a cache never forgets a key nor drops a stored item.
pub proof fn lemma_items_are_kept<K, T>(c: CacheModel<K, T>, key: K, item: T, other: K)
    requires
        c.pending.contains_key(other),
    ensures
        cache_step(c, key, item).0.pending.contains_key(other),
        cache_step(c, key, item).0.pending[other].len() >= c.pending[other].len(),
        forall|i: int|
            0 <= i < c.pending[other].len() ==> #[trigger] cache_step(c, key, item).0.pending[other][i]
                == c.pending[other][i],
{
}

/// The caches of the denunciation factory: block headers by slot and
/// endorsements by slot and index, each with the factory's limit.
pub struct DenunciationFactoryCaches<H, E> {
    block_headers: DenunciationCache<Slot, H>,
    endorsements: DenunciationCache<EndorsementKey, E>,
}

/// A cache of the factory: well formed, with the given limit.
pub open spec fn factory_cache<K, T>(c: CacheModel<K, T>, max_len: usize) -> bool {
    cache_well_formed(c) && c.max_len == max_len
}

impl<H, E> DenunciationFactoryCaches<H, E> {
    /// The block-header cache.
    pub closed spec fn header_cache(&self) -> CacheModel<Slot, H> {
        self.block_headers@
    }

    /// The endorsement cache.
    pub closed spec fn endorsement_cache(&self) -> CacheModel<EndorsementKey, E> {
        self.endorsements@
    }

    /// Both caches are well formed and keep the factory's limits.
    #[verifier::type_invariant]
    pub open spec fn limits_kept(self) -> bool {
        &&& factory_cache(self.header_cache(), DENUNCIATION_FACTORY_BLOCK_HEADER_CACHE_MAX_LEN)
        &&& factory_cache(self.endorsement_cache(), DENUNCIATION_FACTORY_ENDORSEMENT_CACHE_MAX_LEN)
    }

    /// Empty caches with the factory's limits.
    pub fn new() -> (c: Self)
        ensures
            c.header_cache().pending.is_empty(),
            c.header_cache().denounced.is_empty(),
            c.endorsement_cache().pending.is_empty(),
            c.endorsement_cache().denounced.is_empty(),
            factory_cache(c.header_cache(), DENUNCIATION_FACTORY_BLOCK_HEADER_CACHE_MAX_LEN),
            factory_cache(c.endorsement_cache(), DENUNCIATION_FACTORY_ENDORSEMENT_CACHE_MAX_LEN),
    {
        DenunciationFactoryCaches {
            block_headers: DenunciationCache::new(DENUNCIATION_FACTORY_BLOCK_HEADER_CACHE_MAX_LEN),
            endorsements: DenunciationCache::new(DENUNCIATION_FACTORY_ENDORSEMENT_CACHE_MAX_LEN),
        }
    }

    /// The block-header cache, to read from.
    pub fn block_headers(&self) -> (c: &DenunciationCache<Slot, H>)
        ensures
            c@ == self.header_cache(),
            factory_cache(c@, DENUNCIATION_FACTORY_BLOCK_HEADER_CACHE_MAX_LEN),
    {
        proof {
            use_type_invariant(self);
        }
        &self.block_headers
    }

    /// The endorsement cache, to read from.
    pub fn endorsements(&self) -> (c: &DenunciationCache<EndorsementKey, E>)
        ensures
            c@ == self.endorsement_cache(),
            factory_cache(c@, DENUNCIATION_FACTORY_ENDORSEMENT_CACHE_MAX_LEN),
    {
        proof {
            use_type_invariant(self);
        }
        &self.endorsements
    }

    /// Handles a new block header produced at `slot`.
    pub fn process_new_secured_header(&mut self, slot: Slot, header: H) -> (r: CacheOutcome)
        ensures
            (final(self).header_cache(), r) == cache_step(old(self).header_cache(), slot, header),
            final(self).endorsement_cache() == old(self).endorsement_cache(),
            factory_cache(final(self).header_cache(), DENUNCIATION_FACTORY_BLOCK_HEADER_CACHE_MAX_LEN),
            factory_cache(
                final(self).endorsement_cache(),
                DENUNCIATION_FACTORY_ENDORSEMENT_CACHE_MAX_LEN,
            ),
    {
        proof {
            use_type_invariant(&*self);
        }
        let mut cache = DenunciationCache::new(DENUNCIATION_FACTORY_BLOCK_HEADER_CACHE_MAX_LEN);
        std::mem::swap(&mut cache, &mut self.block_headers);
        let r = cache.process(slot, header);
        std::mem::swap(&mut cache, &mut self.block_headers);
        r
    }

    /// Handles a new endorsement of index `index` at `slot`.
    pub fn process_new_secure_share_endorsement(&mut self, slot: Slot, index: u32, endorsement: E) -> (r:
        CacheOutcome)
        ensures
            (final(self).endorsement_cache(), r) == cache_step(
                old(self).endorsement_cache(),
                EndorsementKey { slot, index },
                endorsement,
            ),
            final(self).header_cache() == old(self).header_cache(),
            factory_cache(final(self).header_cache(), DENUNCIATION_FACTORY_BLOCK_HEADER_CACHE_MAX_LEN),
            factory_cache(
                final(self).endorsement_cache(),
                DENUNCIATION_FACTORY_ENDORSEMENT_CACHE_MAX_LEN,
            ),
    {
        proof {
            use_type_invariant(&*self);
        }
        let mut cache = DenunciationCache::new(DENUNCIATION_FACTORY_ENDORSEMENT_CACHE_MAX_LEN);
        std::mem::swap(&mut cache, &mut self.endorsements);
        let r = cache.process(EndorsementKey { slot, index }, endorsement);
        std::mem::swap(&mut cache, &mut self.endorsements);
        r
    }
}

} // verus!
