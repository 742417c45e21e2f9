use massa::keys::{Key32, PeerId};
use massa::peer_handler::{
    accept_announcement, split_handshake_data, Announcement, PeerDB, TesterHandshake,
};

fn peer(n: u64) -> PeerId {
    PeerId(Key32 { w0: n, w1: 0, w2: 0, w3: 0 })
}

#[test]
fn tester_handshake_new() {
    let h = TesterHandshake::new(5u8);
    assert_eq!(h.peer_db, 5);
    assert_eq!(h.announcement_deserializer.max_listeners, 100);
}

#[test]
fn newer_announcements_replace_older_ones() {
    let mut db: PeerDB<&str> = PeerDB::new();
    let p = peer(1);
    db.record_announcement(p, Announcement { timestamp: 10, body: "a" });
    assert_eq!(db.last_announce_timestamp(&p), Some(10));
    db.record_announcement(p, Announcement { timestamp: 5, body: "old" });
    assert_eq!(db.last_announce_timestamp(&p), Some(10));
    db.record_announcement(p, Announcement { timestamp: 10, body: "same" });
    assert_eq!(db.last_announce_timestamp(&p), Some(10));
    db.record_announcement(p, Announcement { timestamp: 20, body: "new" });
    assert_eq!(db.last_announce_timestamp(&p), Some(20));
    // the index records every announcement's time stamp
    assert_eq!(db.peer_at(5), Some(p));
    assert_eq!(db.peer_at(20), Some(p));
    assert_eq!(db.peer_at(7), None);
    assert_eq!(db.peer_count(), 1);
}

#[test]
fn handshake_outcomes() {
    let mut db: PeerDB<u8> = PeerDB::new();
    let p = peer(2);
    assert_eq!(
        accept_announcement(&mut db, p, Announcement { timestamp: 1, body: 0 }, false),
        Err("Invalid signature".to_string())
    );
    assert_eq!(db.peer_count(), 0);
    assert_eq!(db.peer_at(1), None);
    assert_eq!(accept_announcement(&mut db, p, Announcement { timestamp: 1, body: 0 }, true), Ok(p));
    assert_eq!(db.peer_count(), 1);
    assert_eq!(db.peer_at(1), Some(p));
}

#[test]
fn handshake_data_split() {
    let data: Vec<u8> = (0u8..40).collect();
    let (id, rest) = split_handshake_data(&data);
    assert_eq!(id, (0u8..32).collect::<Vec<u8>>());
    assert_eq!(rest, (32u8..40).collect::<Vec<u8>>());
    let exact: Vec<u8> = vec![7; 32];
    let (id, rest) = split_handshake_data(&exact);
    assert_eq!(id, exact);
    assert!(rest.is_empty());
}
