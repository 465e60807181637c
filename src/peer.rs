use vstd::prelude::*;

verus! {

/// The platform-normalised identity of a target. Identity is `peer_id`;
/// equality is by value.
#[derive(Debug, Hash)]
pub struct ResolvedPeer {
    pub peer_id: String,
    pub peer_username: String,
}

impl ResolvedPeer {
    pub fn new(id: String, username: String) -> (r: Self)
        ensures
            r.peer_id@ == id@,
            r.peer_username@ == username@,
    {
        Self { peer_id: id, peer_username: username }
    }
}

/// One message of a history, newest first within a dump. `date` is in
/// seconds since the Unix epoch, UTC.
#[derive(Debug)]
pub struct PeerMessage {
    pub id: String,
    pub user_id: String,
    pub message: String,
    pub date: i64,
}

impl PeerMessage {
    pub fn new(id: String, user_id: String, message: String, date: i64) -> (r: Self)
        ensures
            r.id@ == id@,
            r.user_id@ == user_id@,
            r.message@ == message@,
            r.date == date,
    {
        Self { id, user_id, message, date }
    }
}

impl PartialEq for ResolvedPeer {
    fn eq(&self, other: &ResolvedPeer) -> (r: bool)
        ensures
            r == (self.peer_id@ == other.peer_id@ && self.peer_username@ == other.peer_username@),
    {
        self.peer_id == other.peer_id && self.peer_username == other.peer_username
    }
}

impl Eq for ResolvedPeer {

}

impl vstd::std_specs::cmp::PartialEqSpecImpl for ResolvedPeer {
    open spec fn obeys_eq_spec() -> bool {
        true
    }

    open spec fn eq_spec(&self, other: &ResolvedPeer) -> bool {
        self.peer_id@ == other.peer_id@ && self.peer_username@ == other.peer_username@
    }
}

impl Clone for ResolvedPeer {
    fn clone(&self) -> (r: Self)
        ensures
            r == *self,
    {
        ResolvedPeer { peer_id: self.peer_id.clone(), peer_username: self.peer_username.clone() }
    }
}

impl Clone for PeerMessage {
    fn clone(&self) -> (r: Self)
        ensures
            r == *self,
    {
        PeerMessage {
            id: self.id.clone(),
            user_id: self.user_id.clone(),
            message: self.message.clone(),
            date: self.date,
        }
    }
}

/// A peer together with the messages that were crawled for it.
#[derive(Debug)]
pub struct DumpedPeer {
    pub peer: ResolvedPeer,
    pub chunks: Vec<PeerMessage>,
}

impl Clone for DumpedPeer {
    fn clone(&self) -> (r: Self)
        ensures
            r.peer == self.peer,
            r.chunks@.len() == self.chunks@.len(),
    {
        DumpedPeer { peer: self.peer.clone(), chunks: self.chunks.clone() }
    }
}

impl DumpedPeer {
    pub fn new(peer: ResolvedPeer, chunks: Vec<PeerMessage>) -> (r: Self)
        ensures
            r.peer == peer,
            r.chunks@ == chunks@,
    {
        Self { peer, chunks }
    }
}

} // verus!
