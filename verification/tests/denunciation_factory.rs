use massa::denunciation_factory::{
    CacheOutcome, DenunciationCache, DenunciationFactoryCaches,
    DENUNCIATION_FACTORY_BLOCK_HEADER_CACHE_MAX_LEN, DENUNCIATION_FACTORY_ENDORSEMENT_CACHE_MAX_LEN,
};
use massa::slot::Slot;

#[test]
fn pair_is_completed_once() {
    let mut c: DenunciationCache<Slot, &str> = DenunciationCache::new(4096);
    let s = Slot::new(3, 1);
    assert_eq!(c.process(s, "h1"), CacheOutcome::Stored);
    assert!(c.pair(&s).is_none());
    assert_eq!(c.process(s, "h2"), CacheOutcome::PairComplete);
    assert_eq!(c.pair(&s), Some((&"h1", &"h2")));
    assert_eq!(c.process(s, "h3"), CacheOutcome::AlreadyPaired);
    assert_eq!(c.pair(&s), Some((&"h1", &"h2")));
    assert_eq!(c.len(), 1);
}

#[test]
fn full_cache_refuses_new_work() {
    let mut c: DenunciationCache<Slot, u32> = DenunciationCache::new(2);
    for p in 0..3u64 {
        assert_eq!(c.process(Slot::new(p, 0), 0), CacheOutcome::Stored);
    }
    // three keys, over the maximum of two: everything is refused
    assert_eq!(c.len(), 3);
    assert_eq!(c.process(Slot::new(9, 0), 0), CacheOutcome::CacheFull);
    assert_eq!(c.process(Slot::new(0, 0), 1), CacheOutcome::CacheFull);
    assert_eq!(c.len(), 3);
}

#[test]
fn factory_caches_are_separate() {
    let mut f: DenunciationFactoryCaches<&str, &str> = DenunciationFactoryCaches::new();
    let s = Slot::new(1, 0);
    assert_eq!(f.process_new_secured_header(s, "a"), CacheOutcome::Stored);
    assert_eq!(f.process_new_secure_share_endorsement(s, 0, "e"), CacheOutcome::Stored);
    assert_eq!(f.process_new_secure_share_endorsement(s, 1, "e"), CacheOutcome::Stored);
    assert_eq!(f.process_new_secure_share_endorsement(s, 0, "f"), CacheOutcome::PairComplete);
    assert_eq!(f.process_new_secured_header(s, "b"), CacheOutcome::PairComplete);
    assert_eq!(f.block_headers().len(), 1);
    assert_eq!(f.endorsements().len(), 2);
    assert_eq!(DENUNCIATION_FACTORY_BLOCK_HEADER_CACHE_MAX_LEN, 4096);
    assert_eq!(DENUNCIATION_FACTORY_ENDORSEMENT_CACHE_MAX_LEN, 4096);
}

#[test]
fn header_cache_stops_one_past_its_limit() {
    let mut f: DenunciationFactoryCaches<u32, u32> = DenunciationFactoryCaches::new();
    for p in 0..4097u64 {
        assert_eq!(f.process_new_secured_header(Slot::new(p, 0), 1), CacheOutcome::Stored);
    }
    assert_eq!(f.block_headers().len(), 4097);
    // full: a header for a new slot is dropped, and so is a second header
    assert_eq!(f.process_new_secured_header(Slot::new(5000, 0), 1), CacheOutcome::CacheFull);
    assert_eq!(f.process_new_secured_header(Slot::new(3, 0), 2), CacheOutcome::CacheFull);
    assert_eq!(f.block_headers().len(), 4097);
    assert!(f.block_headers().pair(&Slot::new(3, 0)).is_none());
}
