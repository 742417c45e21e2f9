use massa::keys::{Key32, PeerId};
use massa::vec_map::VecMap;

fn peer(n: u64) -> PeerId {
    PeerId(Key32 { w0: n, w1: 0, w2: 0, w3: 0 })
}

#[test]
fn map_operations() {
    let mut m: VecMap<PeerId, u64> = VecMap::new();
    m.insert(peer(1), 10);
    m.insert(peer(2), 20);
    m.insert(peer(1), 11);
    assert_eq!(m.len(), 2);
    assert_eq!(m.get(&peer(1)), Some(&11));
    assert!(m.contains_key(&peer(2)));
    assert_eq!(m.remove(&peer(2)), Some(20));
    assert_eq!(m.remove(&peer(2)), None);
    assert_eq!(m.len(), 1);
    m.clear();
    assert_eq!(m.len(), 0);
    assert_eq!(m.get(&peer(1)), None);
}
