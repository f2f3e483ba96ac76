use vstd::prelude::*;

verus! {

/// The role a server plays in the cluster.
#[derive(Debug, Clone, Copy, PartialEq, Eq, Structural)]
pub enum NodeState {
    Follower,
    Candidate,
    Leader,
}

/// One record of a node's log.
#[derive(Debug, Clone, PartialEq, Eq)]
pub enum LogEntry {
    Heartbeat { term: u64, peer_id: String },
    HeartbeatLeaderEntry { term: u64, peer_id: String, leader: bool },
}

/// An IPv4 socket address: `ip` holds the four octets in network order
/// (the first octet is the most significant byte).
#[derive(Debug, Clone, Copy, PartialEq, Eq, Structural)]
pub struct Address {
    pub ip: u32,
    pub port: u16,
}

/// Another member of the cluster, known by its name and its address.
#[derive(Debug, Clone)]
pub struct Peer {
    pub id: String,
    pub address: Address,
}

impl Peer {
    /// A copy of this peer.
    pub fn duplicate(&self) -> (p: Peer)
        ensures
            p == *self,
    {
        Peer { id: self.id.clone(), address: self.address }
    }
}

/// The leader a follower currently follows, and the term it leads.
#[derive(Debug)]
pub struct Leader {
    pub id: String,
    pub _term: u64,
}

/// The deadline that lies `timeout` milliseconds after `now` on the node's
/// millisecond clock; a deadline past the clock's range is held at its end.
pub open spec fn deadline_after(now: u64, timeout: u64) -> u64 {
    now.saturating_add(timeout)
}

/// Whether a server whose election deadline is `next_timeout` has timed out
/// at time `now`: only a set deadline can pass, and only strictly.
pub open spec fn timed_out(next_timeout: Option<u64>, now: u64) -> bool {
    match next_timeout {
        Some(t) => now > t,
        None => false,
    }
}

/// The election state of one server. Times are milliseconds on the node's
/// monotonic clock; `timeout` is the length of its election timeout and
/// `next_timeout` the moment it runs out, if it is armed.
#[derive(Debug)]
pub struct Server {
    pub id: String,
    pub address: Address,
    pub state: NodeState,
    pub term: u64,
    pub log_entries: Vec<LogEntry>,
    pub voted_for: Option<Peer>,
    pub next_timeout: Option<u64>,
    pub timeout: u64,
    pub current_leader: Option<Leader>,
    pub number_of_peers: usize,
}

/// A candidate's request for a vote.
#[derive(Debug)]
pub struct VoteRequest {
    pub term: u64,
    pub candidate_id: String,
}

/// The answer to a vote request.
pub struct VoteResponse {
    pub _term: u64,
    pub vote_granted: bool,
}

/// What nodes send each other. Each message carries the sender's listening
/// port, by which the receiver knows who sent it.
#[derive(Debug, Clone, Copy, PartialEq, Eq, Structural)]
pub enum Message {
    RequestVote { term: u64, candidate_id: u64, port: u16 },
    RequestVoteResponse { term: u64, vote_granted: bool, _port: u16 },
    Heartbeat { term: u64, leader_id: u64, _port: u16 },
}

/// The settings of one node: its number, and its base election timeout and
/// heartbeat interval in milliseconds.
#[derive(Debug, Clone, Copy, PartialEq, Eq, Structural)]
pub struct NodeConfig {
    pub id: u64,
    pub election_timeout: u64,
    pub heartbeat_interval: u64,
}

impl Default for NodeConfig {
    /// Node 1, a 1500 ms election timeout and a 500 ms heartbeat interval.
    fn default() -> (c: Self)
        ensures
            c.id == 1,
            c.election_timeout == 1500,
            c.heartbeat_interval == 500,
    {
        NodeConfig { id: 1, election_timeout: 1500, heartbeat_interval: 500 }
    }
}

impl Server {
    /// A follower in term 0 that has voted for no one, follows no one, has an
    /// empty log and no armed election deadline.
    pub fn _new(timeout: u64, number_of_peers: usize, address: Address, id: String) -> (s: Self)
        ensures
            s.id == id,
            s.address == address,
            s.state == NodeState::Follower,
            s.term == 0,
            s.log_entries@.len() == 0,
            s.voted_for is None,
            s.next_timeout is None,
            s.timeout == timeout,
            s.current_leader is None,
            s.number_of_peers == number_of_peers,
    {
        Server {
            id,
            state: NodeState::Follower,
            term: 0,
            log_entries: Vec::new(),
            voted_for: None,
            next_timeout: None,
            timeout,
            current_leader: None,
            number_of_peers,
            address,
        }
    }

    /// Arms the election deadline `timeout` milliseconds after `now`.
    pub fn refresh_timeout(&mut self, now: u64)
        ensures
            final(self).next_timeout == Some(deadline_after(now, old(self).timeout)),
            final(self).id == old(self).id,
            final(self).address == old(self).address,
            final(self).state == old(self).state,
            final(self).term == old(self).term,
            final(self).log_entries == old(self).log_entries,
            final(self).voted_for == old(self).voted_for,
            final(self).timeout == old(self).timeout,
            final(self).current_leader == old(self).current_leader,
            final(self).number_of_peers == old(self).number_of_peers,
    {
        self.next_timeout = Some(self.timeout.saturating_add(now));
    }

    /// A candidate becomes leader and disarms its election deadline; in any
    /// other state nothing changes.
    pub fn become_leader(&mut self)
        ensures
            old(self).state == NodeState::Candidate ==> {
                &&& final(self).state == NodeState::Leader
                &&& final(self).next_timeout is None
            },
            old(self).state != NodeState::Candidate ==> {
                &&& final(self).state == old(self).state
                &&& final(self).next_timeout == old(self).next_timeout
            },
            final(self).id == old(self).id,
            final(self).address == old(self).address,
            final(self).term == old(self).term,
            final(self).log_entries == old(self).log_entries,
            final(self).voted_for == old(self).voted_for,
            final(self).timeout == old(self).timeout,
            final(self).current_leader == old(self).current_leader,
            final(self).number_of_peers == old(self).number_of_peers,
    {
        if self.state == NodeState::Candidate {
            self.state = NodeState::Leader;
            self.next_timeout = None;
        }
    }

    /// Arms the election deadline, as a server does when it starts.
    pub fn _start(&mut self, now: u64)
        ensures
            final(self).next_timeout == Some(deadline_after(now, old(self).timeout)),
            final(self).id == old(self).id,
            final(self).address == old(self).address,
            final(self).state == old(self).state,
            final(self).term == old(self).term,
            final(self).log_entries == old(self).log_entries,
            final(self).voted_for == old(self).voted_for,
            final(self).timeout == old(self).timeout,
            final(self).current_leader == old(self).current_leader,
            final(self).number_of_peers == old(self).number_of_peers,
    {
        self.refresh_timeout(now);
    }

    /// Whether the election deadline has passed at time `now`.
    pub fn has_timed_out(&mut self, now: u64) -> (r: bool)
        ensures
            r == timed_out(old(self).next_timeout, now),
            *final(self) == *old(self),
    {
        match self.next_timeout {
            Some(t) => now > t,
            None => false,
        }
    }
}

} // verus!
