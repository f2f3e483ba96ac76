use vstd::prelude::*;
use rand::Rng;
use crate::ids::{server_id, server_name};
use crate::types::{
    deadline_after, timed_out, Address, Leader, LogEntry, Message, NodeConfig, NodeState, Peer,
    Server, VoteResponse,
};

verus! {

/// The least number of votes that wins an election among `total_nodes`
/// servers: more than half of them.
pub open spec fn majority(total_nodes: int) -> int {
    total_nodes / 2 + 1
}

/// The random addition to the base election timeout lies in
/// `JITTER_MIN_MS..JITTER_END_MS` milliseconds.
pub const JITTER_MIN_MS: u64 = 300;
pub const JITTER_END_MS: u64 = 800;

/// Whether `timeout` is a randomised election timeout drawn for the base
/// timeout `base`: `base` plus between 300 and 799 milliseconds (held at the
/// end of the clock's range).
pub open spec fn election_timeout_window(base: u64, timeout: u64) -> bool {
    base.saturating_add(JITTER_MIN_MS) <= timeout <= base.saturating_add((JITTER_END_MS - 1) as u64)
}

/// A random number in `low..high`, drawn with `rand`'s
/// `thread_rng().gen_range(low..high)`. The contract claims only the range,
/// which `gen_range` documents; it panics on an empty range, which
/// `requires` rules out.
#[verifier::external_body]
fn random_in_range(low: u64, high: u64) -> (r: u64)
    requires
        low < high,
    ensures
        low <= r < high,
{
    rand::thread_rng().gen_range(low..high)
}

/// What a tick asks of the world: the messages to broadcast to all peers, and
/// the log entry to make durable (which, once written, is appended to the log
/// with `append_log_entry`).
pub struct TickOutput {
    pub messages: Vec<Message>,
    pub to_persist: Option<LogEntry>,
}

/// What handling one message asks of the world: the reply to send back to
/// the sender, and the log entry to make durable (which, once written, is
/// appended to the log with `append_log_entry`).
pub struct HandleOutput {
    pub response: Option<Message>,
    pub to_persist: Option<LogEntry>,
}

/// One member of the cluster: its election state, whom it knows, its
/// settings, when it last sent a heartbeat, how many votes it has gathered in
/// the current election, and its share of the FROST signing key (serialized).
pub struct Node {
    pub server: Server,
    pub peers: Vec<Peer>,
    pub config: NodeConfig,
    pub last_heartbeat: Option<u64>,
    pub votes_received: u64,
    pub frost_key: Option<Vec<u8>>,
}

impl Node {
    /// What every operation keeps: a candidate holds either only its own vote
    /// or fewer votes than a majority of the cluster (it becomes leader on
    /// reaching one).
    pub open spec fn inv(self) -> bool {
        self.server.state == NodeState::Candidate ==> (self.votes_received == 1
            || self.votes_received < majority(self.server.number_of_peers + 1))
    }

    /// `post` has the same name, address, cluster size, peers, settings and
    /// key share as `self`.
    pub open spec fn keeps_configuration(self, post: Node) -> bool {
        &&& post.server.id == self.server.id
        &&& post.server.address == self.server.address
        &&& post.server.number_of_peers == self.server.number_of_peers
        &&& post.peers == self.peers
        &&& post.config == self.config
        &&& post.frost_key == self.frost_key
    }

    /// Whether a vote request for `term` from `from` is granted: its term is
    /// not behind ours, and in that term we have voted for no one else (a
    /// newer term clears our vote).
    pub open spec fn grants_vote(self, term: u64, from: Peer) -> bool {
        &&& term >= self.server.term
        &&& (term > self.server.term || self.server.voted_for is None
            || self.server.voted_for.unwrap().id@ == from.id@)
    }

    /// Handling a vote request for `term` from `from` at time `now` takes
    /// `self` to `post`.
    pub open spec fn vote_request_step(self, term: u64, from: Peer, now: u64, post: Node) -> bool {
        let newer = term > self.server.term;
        let granted = self.grants_vote(term, from);
        &&& self.keeps_configuration(post)
        &&& post.server.timeout == self.server.timeout
        &&& post.server.log_entries == self.server.log_entries
        &&& post.last_heartbeat == self.last_heartbeat
        &&& post.votes_received == self.votes_received
        &&& post.server.term == (if newer { term } else { self.server.term })
        &&& post.server.state == (if newer { NodeState::Follower } else { self.server.state })
        &&& (if newer { post.server.current_leader is None }
            else { post.server.current_leader == self.server.current_leader })
        &&& (if granted { post.server.voted_for == Some(from) }
            else if newer { post.server.voted_for is None }
            else { post.server.voted_for == self.server.voted_for })
        &&& post.server.next_timeout == (if newer || granted {
            Some(deadline_after(now, self.server.timeout))
        } else {
            self.server.next_timeout
        })
    }

    /// Handling a reply for `term`, granted or not, at time `now` takes
    /// `self` to `post`: a newer term makes us a follower without a leader;
    /// a granted vote in our term while we are a candidate is counted, and
    /// reaching a majority makes us leader; anything else changes nothing.
    pub open spec fn vote_response_step(self, term: u64, granted: bool, now: u64, post: Node) -> bool {
        &&& self.keeps_configuration(post)
        &&& post.server.timeout == self.server.timeout
        &&& post.server.log_entries == self.server.log_entries
        &&& post.server.voted_for == self.server.voted_for
        &&& if term > self.server.term {
            &&& post.server.term == term
            &&& post.server.state == NodeState::Follower
            &&& post.server.current_leader is None
            &&& post.server.next_timeout == Some(deadline_after(now, self.server.timeout))
            &&& post.votes_received == self.votes_received
            &&& post.last_heartbeat == self.last_heartbeat
        } else if self.server.state == NodeState::Candidate && term == self.server.term && granted {
            let votes = self.votes_received + 1;
            &&& post.votes_received == votes
            &&& post.server.term == self.server.term
            &&& post.server.current_leader == self.server.current_leader
            &&& if votes >= majority(self.server.number_of_peers + 1) {
                &&& post.server.state == NodeState::Leader
                &&& post.server.next_timeout is None
                &&& post.last_heartbeat is None
            } else {
                &&& post.server.state == self.server.state
                &&& post.server.next_timeout == self.server.next_timeout
                &&& post.last_heartbeat == self.last_heartbeat
            }
        } else {
            &&& post.votes_received == self.votes_received
            &&& post.server.term == self.server.term
            &&& post.server.state == self.server.state
            &&& post.server.current_leader == self.server.current_leader
            &&& post.server.next_timeout == self.server.next_timeout
            &&& post.last_heartbeat == self.last_heartbeat
        }
    }

    /// The log entry that records a heartbeat of `term` from `peer_id`.
    pub open spec fn heartbeat_entry(term: u64, peer_id: String) -> LogEntry {
        LogEntry::Heartbeat { term, peer_id }
    }

    /// The log entry with which a leader records its own heartbeat of `term`.
    pub open spec fn leader_heartbeat_entry(term: u64, leader_id: String) -> LogEntry {
        LogEntry::HeartbeatLeaderEntry { term, peer_id: leader_id, leader: true }
    }

    /// Handling a heartbeat of `term` from `from` at time `now` takes `self`
    /// to `post` and asks for `persist` to be made durable: a term not behind
    /// ours makes us a follower of `from` in that term and records the
    /// heartbeat; an older one changes nothing.
    pub open spec fn heartbeat_step(self, term: u64, from: Peer, now: u64, post: Node, persist: Option<LogEntry>) -> bool {
        &&& self.keeps_configuration(post)
        &&& post.server.timeout == self.server.timeout
        &&& post.server.voted_for == self.server.voted_for
        &&& post.votes_received == self.votes_received
        &&& post.last_heartbeat == self.last_heartbeat
        &&& if term >= self.server.term {
            &&& post.server.term == term
            &&& post.server.state == NodeState::Follower
            &&& post.server.current_leader == Some(Leader { id: from.id, _term: term })
            &&& post.server.next_timeout == Some(deadline_after(now, self.server.timeout))
            &&& post.server.log_entries@ == self.server.log_entries@.push(Self::heartbeat_entry(term, from.id))
            &&& persist == Some(Self::heartbeat_entry(term, from.id))
        } else {
            &&& post.server.term == self.server.term
            &&& post.server.state == self.server.state
            &&& post.server.current_leader == self.server.current_leader
            &&& post.server.next_timeout == self.server.next_timeout
            &&& post.server.log_entries == self.server.log_entries
            &&& persist is None
        }
    }

    /// Handling `message` from `from` at time `now` takes `self` to `post`
    /// and produces `out`. Only a vote request is answered, with our term
    /// after handling it, whether the vote was granted, and our port.
    pub open spec fn handle_step(self, message: Message, from: Peer, now: u64, post: Node, out: HandleOutput) -> bool {
        match message {
            Message::RequestVote { term, candidate_id: _, port: _ } => {
                &&& self.vote_request_step(term, from, now, post)
                &&& out.response == Some(Message::RequestVoteResponse {
                    term: post.server.term,
                    vote_granted: self.grants_vote(term, from),
                    _port: self.server.address.port,
                })
                &&& out.to_persist is None
            },
            Message::RequestVoteResponse { term, vote_granted, _port: _ } => {
                &&& self.vote_response_step(term, vote_granted, now, post)
                &&& out.response is None
                &&& out.to_persist is None
            },
            Message::Heartbeat { term, leader_id: _, _port: _ } => {
                &&& self.heartbeat_step(term, from, now, post, out.to_persist)
                &&& out.response is None
            },
        }
    }

    /// The term a message carries.
    pub open spec fn message_term(message: Message) -> u64 {
        match message {
            Message::RequestVote { term, .. } => term,
            Message::RequestVoteResponse { term, .. } => term,
            Message::Heartbeat { term, .. } => term,
        }
    }

    /// Whether a leader's heartbeat is due at `now`: it has sent none yet, or
    /// a heartbeat interval has passed since the last one.
    pub open spec fn heartbeat_due(self, now: u64) -> bool {
        match self.last_heartbeat {
            None => true,
            Some(t) => now.saturating_sub(t) >= self.config.heartbeat_interval,
        }
    }

    /// A tick at time `now` takes `self` to `post` and produces `out`.
    /// A follower or candidate whose election deadline has passed starts an
    /// election in the next term: it becomes a candidate that voted for
    /// itself, draws a new election timeout, arms its deadline and asks for
    /// votes. A leader whose heartbeat is due sends one and records it as a
    /// leader's heartbeat.
    /// Otherwise nothing changes and nothing is sent.
    pub open spec fn tick_step(self, now: u64, post: Node, out: TickOutput) -> bool {
        let port = self.server.address.port;
        &&& self.keeps_configuration(post)
        &&& post.server.log_entries == self.server.log_entries
        &&& if self.server.state != NodeState::Leader && timed_out(self.server.next_timeout, now) {
            &&& post.server.term == self.server.term + 1
            &&& post.server.state == NodeState::Candidate
            &&& post.votes_received == 1
            &&& post.server.voted_for == Some(Peer { id: self.server.id, address: self.server.address })
            &&& election_timeout_window(self.config.election_timeout, post.server.timeout)
            &&& post.server.next_timeout == Some(deadline_after(now, post.server.timeout))
            &&& post.server.current_leader == self.server.current_leader
            &&& post.last_heartbeat == self.last_heartbeat
            &&& out.messages@ == seq![Message::RequestVote {
                term: post.server.term,
                candidate_id: self.config.id,
                port,
            }]
            &&& out.to_persist is None
        } else {
            &&& post.server.term == self.server.term
            &&& post.server.state == self.server.state
            &&& post.votes_received == self.votes_received
            &&& post.server.voted_for == self.server.voted_for
            &&& post.server.timeout == self.server.timeout
            &&& post.server.next_timeout == self.server.next_timeout
            &&& post.server.current_leader == self.server.current_leader
            &&& if self.server.state == NodeState::Leader && self.heartbeat_due(now) {
                &&& post.last_heartbeat == Some(now)
                &&& out.messages@ == seq![Message::Heartbeat {
                    term: self.server.term,
                    leader_id: self.config.id,
                    _port: port,
                }]
                &&& out.to_persist == Some(Self::leader_heartbeat_entry(self.server.term, self.server.id))
            } else {
                &&& post.last_heartbeat == self.last_heartbeat
                &&& out.messages@.len() == 0
                &&& out.to_persist is None
            }
        }
    }
}

impl Node {
    /// A follower named `server_<id>` in term 0 that knows `peers`, with an
    /// election timeout drawn at random for `config.election_timeout` and no
    /// deadline armed yet, no votes, no heartbeat sent and no key share.
    pub fn new(config: NodeConfig, address: Address, peers: Vec<Peer>) -> (n: Self)
        ensures
            n.server.id@ == server_name(config.id as nat),
            n.server.address == address,
            n.server.state == NodeState::Follower,
            n.server.term == 0,
            n.server.log_entries@.len() == 0,
            n.server.voted_for is None,
            n.server.next_timeout is None,
            election_timeout_window(config.election_timeout, n.server.timeout),
            n.server.current_leader is None,
            n.server.number_of_peers == peers@.len(),
            n.peers == peers,
            n.config == config,
            n.last_heartbeat is None,
            n.votes_received == 0,
            n.frost_key is None,
            n.inv(),
    {
        let id = server_id(config.id);
        let timeout = Self::random_election_timeout(config.election_timeout);
        let number_of_peers = peers.len();
        let server = Server {
            id,
            address,
            state: NodeState::Follower,
            term: 0,
            log_entries: Vec::new(),
            voted_for: None,
            next_timeout: None,
            timeout,
            current_leader: None,
            number_of_peers,
        };
        Node { server, peers, config, last_heartbeat: None, votes_received: 0, frost_key: None }
    }

    /// `base_timeout` plus a random 300 to 799 milliseconds.
    fn random_election_timeout(base_timeout: u64) -> (t: u64)
        ensures
            election_timeout_window(base_timeout, t),
    {
        let jitter = random_in_range(JITTER_MIN_MS, JITTER_END_MS);
        base_timeout.saturating_add(jitter)
    }

    /// Arms the election deadline one election timeout after `now`.
    pub fn start(&mut self, now: u64)
        ensures
            final(self).server.next_timeout == Some(deadline_after(now, old(self).server.timeout)),
            old(self).keeps_configuration(*final(self)),
            final(self).server.state == old(self).server.state,
            final(self).server.term == old(self).server.term,
            final(self).server.log_entries == old(self).server.log_entries,
            final(self).server.voted_for == old(self).server.voted_for,
            final(self).server.timeout == old(self).server.timeout,
            final(self).server.current_leader == old(self).server.current_leader,
            final(self).last_heartbeat == old(self).last_heartbeat,
            final(self).votes_received == old(self).votes_received,
    {
        self.server.refresh_timeout(now);
    }

    /// Becomes a follower of `leader` (or of no one) and re-arms the
    /// election deadline.
    fn become_follower(&mut self, leader: Option<Leader>, now: u64)
        ensures
            final(self).server.state == NodeState::Follower,
            final(self).server.current_leader == leader,
            final(self).server.next_timeout == Some(deadline_after(now, old(self).server.timeout)),
            old(self).keeps_configuration(*final(self)),
            final(self).server.term == old(self).server.term,
            final(self).server.log_entries == old(self).server.log_entries,
            final(self).server.voted_for == old(self).server.voted_for,
            final(self).server.timeout == old(self).server.timeout,
            final(self).last_heartbeat == old(self).last_heartbeat,
            final(self).votes_received == old(self).votes_received,
    {
        self.server.state = NodeState::Follower;
        self.server.current_leader = leader;
        self.server.refresh_timeout(now);
    }

    /// Starts an election in the next term: becomes a candidate that voted
    /// for itself, draws a new election timeout and arms the deadline.
    fn start_election(&mut self, now: u64)
        requires
            old(self).server.term < u64::MAX,
        ensures
            final(self).server.term == old(self).server.term + 1,
            final(self).server.state == NodeState::Candidate,
            final(self).votes_received == 1,
            final(self).server.voted_for == Some(Peer { id: old(self).server.id, address: old(self).server.address }),
            election_timeout_window(old(self).config.election_timeout, final(self).server.timeout),
            final(self).server.next_timeout == Some(deadline_after(now, final(self).server.timeout)),
            old(self).keeps_configuration(*final(self)),
            final(self).server.log_entries == old(self).server.log_entries,
            final(self).server.current_leader == old(self).server.current_leader,
            final(self).last_heartbeat == old(self).last_heartbeat,
    {
        self.server.term = self.server.term + 1;
        self.server.state = NodeState::Candidate;
        self.votes_received = 1;
        self.server.voted_for = Some(Peer { id: self.server.id.clone(), address: self.server.address });
        self.server.timeout = Self::random_election_timeout(self.config.election_timeout);
        self.server.refresh_timeout(now);
    }

    /// Answers a vote request of `term` from `from_peer`.
    fn handle_vote_request(&mut self, term: u64, _candidate_id: u64, from_peer: &Peer, now: u64) -> (r: VoteResponse)
        ensures
            old(self).vote_request_step(term, *from_peer, now, *final(self)),
            r.vote_granted == old(self).grants_vote(term, *from_peer),
            r._term == final(self).server.term,
    {
        if term > self.server.term {
            self.server.term = term;
            self.become_follower(None, now);
            self.server.voted_for = None;
        }
        let vote_granted = term >= self.server.term && match &self.server.voted_for {
            None => true,
            Some(p) => p.id == from_peer.id,
        };
        if vote_granted {
            self.server.voted_for = Some(from_peer.duplicate());
            self.server.refresh_timeout(now);
        }
        VoteResponse { _term: self.server.term, vote_granted }
    }

    /// Counts a reply to our vote request.
    fn handle_vote_response(&mut self, term: u64, vote_granted: bool, _from_peer: &Peer, now: u64)
        requires
            old(self).inv(),
        ensures
            old(self).vote_response_step(term, vote_granted, now, *final(self)),
    {
        if term > self.server.term {
            self.server.term = term;
            self.become_follower(None, now);
            return;
        }
        if self.server.state == NodeState::Candidate && term == self.server.term && vote_granted {
            self.votes_received = self.votes_received + 1;
            let total_nodes: u128 = self.server.number_of_peers as u128 + 1;
            let votes_needed: u128 = total_nodes / 2 + 1;
            if self.votes_received as u128 >= votes_needed {
                self.server.become_leader();
                self.last_heartbeat = None;
            }
        }
    }

    /// Follows the sender of a heartbeat whose term is not behind ours, and
    /// records the heartbeat; returns the entry to make durable.
    fn handle_heartbeat(&mut self, term: u64, _leader_id: u64, from_peer: &Peer, now: u64) -> (persist: Option<LogEntry>)
        ensures
            old(self).heartbeat_step(term, *from_peer, now, *final(self), persist),
    {
        if term >= self.server.term {
            self.server.term = term;
            let leader = Leader { id: from_peer.id.clone(), _term: term };
            self.become_follower(Some(leader), now);
            self.server.log_entries.push(LogEntry::Heartbeat { term, peer_id: from_peer.id.clone() });
            Some(LogEntry::Heartbeat { term, peer_id: from_peer.id.clone() })
        } else {
            None
        }
    }
}

impl Node {
    /// Advances the node's timers at time `now` (see `tick_step`): a
    /// follower or candidate whose deadline has passed starts an election and
    /// asks for votes; a leader sends a heartbeat when one is due.
    pub fn tick(&mut self, now: u64) -> (out: TickOutput)
        requires
            old(self).server.state != NodeState::Leader && timed_out(old(self).server.next_timeout, now)
                ==> old(self).server.term < u64::MAX,
        ensures
            old(self).tick_step(now, *final(self), out),
            old(self).inv() ==> final(self).inv(),
            final(self).server.term >= old(self).server.term,
            old(self).server.state == NodeState::Leader ==> {
                &&& final(self).server.state == NodeState::Leader
                &&& final(self).server.term == old(self).server.term
            },
            final(self).server.state == NodeState::Leader ==> old(self).server.state == NodeState::Leader,
    {
        let mut messages: Vec<Message> = Vec::new();
        let mut to_persist: Option<LogEntry> = None;
        let port = self.server.address.port;
        match self.server.state {
            NodeState::Follower | NodeState::Candidate => {
                if self.server.has_timed_out(now) {
                    self.start_election(now);
                    messages.push(Message::RequestVote {
                        term: self.server.term,
                        candidate_id: self.config.id,
                        port,
                    });
                }
            },
            NodeState::Leader => {
                let due = match self.last_heartbeat {
                    None => true,
                    Some(time) => now.saturating_sub(time) >= self.config.heartbeat_interval,
                };
                if due {
                    self.last_heartbeat = Some(now);
                    to_persist = Some(LogEntry::HeartbeatLeaderEntry {
                        term: self.server.term,
                        peer_id: self.server.id.clone(),
                        leader: true,
                    });
                    messages.push(Message::Heartbeat {
                        term: self.server.term,
                        leader_id: self.config.id,
                        _port: port,
                    });
                }
            },
        }
        proof {
            assert(messages@.len() == 0 || messages@.len() == 1);
        }
        TickOutput { messages, to_persist }
    }

    /// Handles `message` from `from_peer` at time `now` (see `handle_step`)
    /// and returns the reply, if any, and the entry to make durable, if any.
    pub fn handle_message(&mut self, message: Message, from_peer: &Peer, now: u64) -> (out: HandleOutput)
        requires
            old(self).inv(),
        ensures
            old(self).handle_step(message, *from_peer, now, *final(self), out),
            final(self).inv(),
            final(self).server.term >= old(self).server.term,
            Self::message_term(message) > old(self).server.term ==> {
                &&& final(self).server.term == Self::message_term(message)
                &&& final(self).server.state == NodeState::Follower
            },
            // within one term, a node that has voted refuses every other candidate
            message is RequestVote && Self::message_term(message) == old(self).server.term
                && old(self).server.voted_for is Some
                && old(self).server.voted_for.unwrap().id@ != from_peer.id@ ==> {
                &&& out.response == Some(Message::RequestVoteResponse {
                    term: old(self).server.term,
                    vote_granted: false,
                    _port: old(self).server.address.port,
                })
                &&& final(self).server.voted_for == old(self).server.voted_for
            },
            final(self).server.state == NodeState::Leader && old(self).server.state != NodeState::Leader ==> {
                &&& old(self).server.state == NodeState::Candidate
                &&& final(self).server.term == old(self).server.term
                &&& final(self).votes_received >= majority(old(self).server.number_of_peers + 1)
            },
    {
        match message {
            Message::RequestVote { term, candidate_id, port: _ } => {
                let response = self.handle_vote_request(term, candidate_id, from_peer, now);
                HandleOutput {
                    response: Some(Message::RequestVoteResponse {
                        term: self.server.term,
                        vote_granted: response.vote_granted,
                        _port: self.server.address.port,
                    }),
                    to_persist: None,
                }
            },
            Message::RequestVoteResponse { term, vote_granted, _port: _ } => {
                self.handle_vote_response(term, vote_granted, from_peer, now);
                HandleOutput { response: None, to_persist: None }
            },
            Message::Heartbeat { term, leader_id, _port: _ } => {
                let to_persist = self.handle_heartbeat(term, leader_id, from_peer, now);
                HandleOutput { response: None, to_persist }
            },
        }
    }

    /// Appends `entry` to the in-memory log, as is done once it is durable.
    pub fn append_log_entry(&mut self, entry: LogEntry)
        ensures
            final(self).server.log_entries@ == old(self).server.log_entries@.push(entry),
            old(self).keeps_configuration(*final(self)),
            final(self).server.state == old(self).server.state,
            final(self).server.term == old(self).server.term,
            final(self).server.voted_for == old(self).server.voted_for,
            final(self).server.timeout == old(self).server.timeout,
            final(self).server.next_timeout == old(self).server.next_timeout,
            final(self).server.current_leader == old(self).server.current_leader,
            final(self).last_heartbeat == old(self).last_heartbeat,
            final(self).votes_received == old(self).votes_received,
    {
        self.server.log_entries.push(entry);
    }
}

} // verus!
