use massa::denunciation_factory::EndorsementKey;
use massa::int_key_map::{IntKey, IntKeyMap, IntKeySet};
use massa::processed_denunciations::DenunciationIndex;
use massa::slot::Slot;

#[test]
fn slot_codes() {
    assert_eq!(Slot { period: 0, thread: 0 }.encode(), 0);
    assert_eq!(Slot { period: 3, thread: 5 }.encode(), 3 * 256 + 5);
    assert_eq!(
        Slot { period: u64::MAX, thread: 255 }.encode(),
        (u64::MAX as u128) * 256 + 255
    );
}

#[test]
fn endorsement_key_codes() {
    let k = EndorsementKey { slot: Slot { period: 2, thread: 1 }, index: 7 };
    assert_eq!(k.encode(), (2 * 256 + 1) * (1u128 << 32) + 7);
}

#[test]
fn denunciation_index_codes_tell_kinds_apart() {
    let slot = Slot { period: 4, thread: 9 };
    let header = DenunciationIndex::BlockHeader { slot };
    let endorsement = DenunciationIndex::Endorsement { slot, index: 0 };
    assert_eq!(header.encode(), (4 * 256 + 9) * (1u128 << 33));
    assert_eq!(endorsement.encode(), header.encode() + 1);
    assert_ne!(header.encode(), endorsement.encode());
}

#[test]
fn map_by_slot() {
    let mut m: IntKeyMap<Slot, u32> = IntKeyMap::new();
    let a = Slot { period: 1, thread: 0 };
    let b = Slot { period: 0, thread: 1 };
    m.insert(a, 10);
    m.insert(b, 20);
    m.insert(a, 11);
    assert_eq!(m.len(), 2);
    assert_eq!(m.get(&a), Some(&11));
    assert!(m.contains_key(&b));
    let copy = m.duplicate();
    assert_eq!(m.remove(&b), Some(20));
    assert_eq!(m.remove(&b), None);
    assert_eq!(m.len(), 1);
    m.clear();
    assert_eq!(m.len(), 0);
    assert_eq!(copy.get(&b), Some(&20));
}

#[test]
fn set_of_denunciation_indices() {
    let slot = Slot { period: 8, thread: 2 };
    let mut s: IntKeySet<DenunciationIndex> = IntKeySet::new();
    assert!(s.insert(DenunciationIndex::BlockHeader { slot }));
    assert!(!s.insert(DenunciationIndex::BlockHeader { slot }));
    assert!(s.insert(DenunciationIndex::Endorsement { slot, index: 0 }));
    assert_eq!(s.len(), 2);
    assert!(s.contains(&DenunciationIndex::Endorsement { slot, index: 0 }));
    assert!(!s.contains(&DenunciationIndex::Endorsement { slot, index: 1 }));
    let copy = s.duplicate();
    s.clear();
    assert_eq!(s.len(), 0);
    assert_eq!(copy.len(), 2);
}

#[test]
fn retain_recent_keeps_fresh_entries() {
    let mut m: IntKeyMap<u32, u64> = IntKeyMap::new();
    m.insert(1, 100);
    m.insert(2, 50);
    m.insert(3, 300);
    m.retain_recent(150, 50);
    assert_eq!(m.get(&1), Some(&100));
    assert_eq!(m.get(&2), None);
    // a time stamp after `now` counts as no time elapsed
    assert_eq!(m.get(&3), Some(&300));
    assert_eq!(m.len(), 2);
}
