//! The peer database and the handshake of the tester connections.
//!
//! A tester connects to a listener, reads the peer's id and its signed
//! announcement, and records the announcement in the shared peer database.
use vstd::prelude::*;
use std::collections::BTreeMap;
use crate::keys::PeerId;
use crate::vec_map::VecMap;

verus! {

broadcast use vstd::laws_cmp::group_laws_cmp;

/// A peer's announcement: its time stamp (milliseconds) and the rest of it
/// (listeners, hash, signature), which the database keeps as it is.
#[derive(Debug)]
pub struct Announcement<A> {
    pub timestamp: u128,
    pub body: A,
}

/// What the database knows of a peer.
#[derive(Debug)]
pub struct PeerInfo<A> {
    pub last_announce: Announcement<A>,
}

/// The peer database: peers by the time stamp of an announcement, and each
/// peer's most recent announcement.
pub struct PeerDB<A> {
    index_by_newest: BTreeMap<u128, PeerId>,
    peers: VecMap<PeerId, PeerInfo<A>>,
}

/// The abstract peer database.
pub struct PeerDBModel<A> {
    pub index_by_newest: Map<u128, PeerId>,
    pub peers: Map<PeerId, PeerInfo<A>>,
}

impl<A> View for PeerDB<A> {
    type V = PeerDBModel<A>;

    closed spec fn view(&self) -> PeerDBModel<A> {
        PeerDBModel { index_by_newest: self.index_by_newest@, peers: self.peers@ }
    }
}

/// The peers after `peer_id` announced `announcement`: a first announcement
/// is kept, a later one replaces the stored one only if it is strictly newer.
pub open spec fn peers_after_announce<A>(
    peers: Map<PeerId, PeerInfo<A>>,
    peer_id: PeerId,
    announcement: Announcement<A>,
) -> Map<PeerId, PeerInfo<A>> {
    if peers.contains_key(peer_id) && !(peers[peer_id].last_announce.timestamp
        < announcement.timestamp) {
        peers
    } else {
        peers.insert(peer_id, PeerInfo { last_announce: announcement })
    }
}

impl<A> PeerDB<A> {
    /// An empty database.
    pub fn new() -> (db: Self)
        ensures
            db@.index_by_newest == Map::<u128, PeerId>::empty(),
            db@.peers == Map::<PeerId, PeerInfo<A>>::empty(),
    {
        PeerDB { index_by_newest: BTreeMap::new(), peers: VecMap::new() }
    }

    /// Records an announcement of `peer_id`: indexes the peer by the
    /// announcement's time stamp, and keeps the announcement as the peer's
    /// last one unless the stored one is at least as recent.
    pub fn record_announcement(&mut self, peer_id: PeerId, announcement: Announcement<A>)
        ensures
            final(self)@.index_by_newest == old(self)@.index_by_newest.insert(
                announcement.timestamp,
                peer_id,
            ),
            final(self)@.peers == peers_after_announce(old(self)@.peers, peer_id, announcement),
            // a first or strictly newer announcement is stored as it is
            !old(self)@.peers.contains_key(peer_id) || old(self)@.peers[peer_id].last_announce.timestamp
                < announcement.timestamp ==> final(self)@.peers.contains_key(peer_id) && final(
                self)@.peers[peer_id].last_announce == announcement,
            // an older or equally old one leaves the stored one
            old(self)@.peers.contains_key(peer_id) && announcement.timestamp <= old(
                self)@.peers[peer_id].last_announce.timestamp ==> final(self)@.peers[peer_id]
                == old(self)@.peers[peer_id],
            // every other peer stays as it was
            forall|other: PeerId|
                other != peer_id ==> (#[trigger] final(self)@.peers.contains_key(other) == old(
                    self)@.peers.contains_key(other) && (old(self)@.peers.contains_key(other)
                    ==> final(self)@.peers[other] == old(self)@.peers[other])),
            final(self)@.peers.dom() == old(self)@.peers.dom().insert(peer_id),
    {
        let ghost ann = announcement;
        let ghost old_peers = self.peers@;
        self.index_by_newest.insert(announcement.timestamp, peer_id);
        match self.peers.remove(&peer_id) {
            Some(info) => {
                if info.last_announce.timestamp < announcement.timestamp {
                    self.peers.insert(peer_id, PeerInfo { last_announce: announcement });
                    proof {
                        assert(self.peers@ =~= old_peers.insert(peer_id, PeerInfo { last_announce: ann }));
                    }
                } else {
                    self.peers.insert(peer_id, info);
                    proof {
                        assert(self.peers@ =~= old_peers);
                    }
                }
            },
            None => {
                self.peers.insert(peer_id, PeerInfo { last_announce: announcement });
                proof {
                    assert(self.peers@ =~= old_peers.insert(peer_id, PeerInfo { last_announce: ann }));
                }
            },
        }
    }

    /// The time stamp of the last announcement of `peer_id`, if any.
    pub fn last_announce_timestamp(&self, peer_id: &PeerId) -> (r: Option<u128>)
        ensures
            r == (if self@.peers.contains_key(*peer_id) {
                Some(self@.peers[*peer_id].last_announce.timestamp)
            } else {
                None::<u128>
            }),
    {
        match self.peers.get(peer_id) {
            Some(info) => Some(info.last_announce.timestamp),
            None => None,
        }
    }

    /// The peer indexed by time stamp `timestamp`, if any.
    pub fn peer_at(&self, timestamp: u128) -> (r: Option<PeerId>)
        ensures
            r == (if self@.index_by_newest.contains_key(timestamp) {
                Some(self@.index_by_newest[timestamp])
            } else {
                None::<PeerId>
            }),
    {
        match self.index_by_newest.get(&timestamp) {
            Some(p) => Some(*p),
            None => None,
        }
    }

    /// The number of known peers.
    pub fn peer_count(&self) -> (n: usize)
        ensures
            n == self@.peers.len(),
    {
        self.peers.len()
    }
}

/// A peer's stored announcement never goes back in time: after any
/// announcement it is at least as recent as before and as the new one.
pub proof fn lemma_last_announce_is_newest<A>(
    peers: Map<PeerId, PeerInfo<A>>,
    peer_id: PeerId,
    announcement: Announcement<A>,
)
    ensures
        ({
            let after = peers_after_announce(peers, peer_id, announcement);
            &&& after.contains_key(peer_id)
            &&& after[peer_id].last_announce.timestamp >= announcement.timestamp
            &&& peers.contains_key(peer_id) ==> after[peer_id].last_announce.timestamp
                >= peers[peer_id].last_announce.timestamp
        }),
{
}

/// The stored announcement of a peer is the whole newest one: after a first
/// or strictly newer announcement, the peer's last announcement is exactly
/// that announcement, body and all.
pub proof fn lemma_newer_announcement_is_stored_whole<A>(
    peers: Map<PeerId, PeerInfo<A>>,
    peer_id: PeerId,
    announcement: Announcement<A>,
)
    requires
        !peers.contains_key(peer_id) || peers[peer_id].last_announce.timestamp
            < announcement.timestamp,
    ensures
        peers_after_announce(peers, peer_id, announcement)[peer_id].last_announce == announcement,
{
}

/// An announcement leaves every other peer as it was.
pub proof fn lemma_other_peers_untouched<A>(
    peers: Map<PeerId, PeerInfo<A>>,
    peer_id: PeerId,
    announcement: Announcement<A>,
    other: PeerId,
)
    requires
        other != peer_id,
    ensures
        peers_after_announce(peers, peer_id, announcement).contains_key(other) == peers.contains_key(
            other,
        ),
        peers.contains_key(other) ==> peers_after_announce(peers, peer_id, announcement)[other]
            == peers[other],
{
}

/// Reads announcements of at most this many listeners.
#[derive(Clone, Copy, Debug)]
pub struct AnnouncementDeserializerArgs {
    pub max_listeners: u64,
}

/// Reads a peer's announcement.
#[derive(Clone, Copy, Debug)]
pub struct AnnouncementDeserializer {
    pub max_listeners: u64,
}

impl AnnouncementDeserializer {
    pub fn new(args: AnnouncementDeserializerArgs) -> (d: Self)
        ensures
            d.max_listeners == args.max_listeners,
    {
        AnnouncementDeserializer { max_listeners: args.max_listeners }
    }
}

/// The handshake of tester connections: it records the announcements it
/// receives in the shared peer database `peer_db`.
pub struct TesterHandshake<D> {
    pub peer_db: D,
    pub announcement_deserializer: AnnouncementDeserializer,
}

impl<D> TesterHandshake<D> {
    /// A handshake that records into `peer_db` and reads announcements of at
    /// most 100 listeners.
    pub fn new(peer_db: D) -> (h: Self)
        ensures
            h.peer_db == peer_db,
            h.announcement_deserializer.max_listeners == 100,
    {
        TesterHandshake {
            peer_db,
            announcement_deserializer: AnnouncementDeserializer::new(
                AnnouncementDeserializerArgs { max_listeners: 100 },
            ),
        }
    }
}

/// The error text of a handshake whose announcement is badly signed.
pub open spec fn invalid_signature_text() -> Seq<char> {
    "Invalid signature"@
}

/// Splits the first message of a handshake into the peer's id (its first 32
/// bytes) and its announcement (the rest). The message must hold at least
/// 32 bytes.
pub fn split_handshake_data(data: &[u8]) -> (r: (Vec<u8>, Vec<u8>))
    requires
        data@.len() >= 32,
    ensures
        r.0@ == data@.subrange(0, 32),
        r.1@ == data@.subrange(32, data@.len() as int),
{
    let mut id: Vec<u8> = Vec::new();
    let mut rest: Vec<u8> = Vec::new();
    let n = data.len();
    let mut i: usize = 0;
    while i < n
        invariant
            n == data@.len(),
            32 <= n,
            i <= n,
            i <= 32 ==> id@ == data@.subrange(0, i as int) && rest@.len() == 0,
            i > 32 ==> id@ == data@.subrange(0, 32) && rest@ == data@.subrange(32, i as int),
        decreases n - i,
    {
        if i < 32 {
            id.push(data[i]);
        } else {
            rest.push(data[i]);
        }
        i = i + 1;
        proof {
            if i <= 32 {
                assert(id@ =~= data@.subrange(0, i as int));
            } else {
                assert(rest@ =~= data@.subrange(32, i as int));
            }
        }
    }
    proof {
        if n == 32 {
            assert(rest@ =~= data@.subrange(32, n as int));
        }
    }
    (id, rest)
}

/// Ends the handshake of `peer_id` once its announcement was read and its
/// signature checked (`signature_valid`): a badly signed announcement is
/// refused and changes nothing; a valid one is recorded and the peer's id
/// returned.
pub fn accept_announcement<A>(
    peer_db: &mut PeerDB<A>,
    peer_id: PeerId,
    announcement: Announcement<A>,
    signature_valid: bool,
) -> (r: Result<PeerId, String>)
    ensures
        !signature_valid ==> final(peer_db)@ == old(peer_db)@ && r is Err && r->Err_0@
            == invalid_signature_text(),
        signature_valid ==> r == Ok::<PeerId, String>(peer_id)
            && final(peer_db)@.index_by_newest == old(peer_db)@.index_by_newest.insert(
            announcement.timestamp,
            peer_id,
        ) && final(peer_db)@.peers == peers_after_announce(
            old(peer_db)@.peers,
            peer_id,
            announcement,
        ),
{
    if !signature_valid {
        return Err(String::from_str("Invalid signature"));
    }
    peer_db.record_announcement(peer_id, announcement);
    Ok(peer_id)
}

} // verus!
