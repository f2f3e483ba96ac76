use vstd::prelude::*;
use crate::node::{majority, HandleOutput, Node, TickOutput};
use crate::types::{deadline_after, timed_out, Leader, LogEntry, Message, NodeState, Peer};

verus! {

/// Any two majorities of the same cluster overlap: twice the winning number
/// of votes exceeds the number of servers.
pub proof fn lemma_majorities_intersect(total_nodes: int)
    requires
        total_nodes >= 0,
    ensures
        majority(total_nodes) + majority(total_nodes) > total_nodes,
{
}

/// Within one term a node's vote never moves: if handling any message leaves
/// the term unchanged, a node that had voted for a peer still holds a vote
/// for a peer of that name.
pub proof fn lemma_handle_keeps_vote_in_term(pre: Node, message: Message, from: Peer, now: u64, post: Node, out: HandleOutput)
    requires
        pre.handle_step(message, from, now, post, out),
        post.server.term == pre.server.term,
        pre.server.voted_for is Some,
    ensures
        post.server.voted_for is Some,
        post.server.voted_for.unwrap().id@ == pre.server.voted_for.unwrap().id@,
{
}

/// A tick that leaves the term unchanged leaves the vote unchanged.
pub proof fn lemma_tick_keeps_vote_in_term(pre: Node, now: u64, post: Node, out: TickOutput)
    requires
        pre.tick_step(now, post, out),
        post.server.term == pre.server.term,
    ensures
        post.server.voted_for == pre.server.voted_for,
{
}

/// A node grants at most one candidate per term: after granting a vote in
/// `term` to `p`, a request of the same term from `q` is granted only if `q`
/// has `p`'s name.
pub proof fn lemma_one_vote_per_term(pre: Node, term: u64, p: Peer, now1: u64, mid: Node, q: Peer, now2: u64, post: Node)
    requires
        pre.vote_request_step(term, p, now1, mid),
        pre.grants_vote(term, p),
        mid.vote_request_step(term, q, now2, post),
        mid.grants_vote(term, q),
    ensures
        q.id@ == p.id@,
{
}

/// An election deadline armed at `now` has not passed until `timeout`
/// milliseconds later, and has passed at any later time within the clock's
/// range.
pub proof fn lemma_deadline_passes_after_timeout(now: u64, timeout: u64, later: u64)
    ensures
        later <= now + timeout ==> !timed_out(Some(deadline_after(now, timeout)), later),
        later > now + timeout ==> timed_out(Some(deadline_after(now, timeout)), later),
{
}

/// A candidate that wins an election has no deadline left, so it can never
/// time out into a new election while it leads.
pub proof fn lemma_new_leader_never_times_out(pre: Node, term: u64, granted: bool, now: u64, post: Node, later: u64)
    requires
        pre.vote_response_step(term, granted, now, post),
        pre.server.state == NodeState::Candidate,
        post.server.state == NodeState::Leader,
    ensures
        !timed_out(post.server.next_timeout, later),
        post.server.term == pre.server.term,
{
}

/// Heartbeats keep elections away: a follower that took a heartbeat at
/// `now` does not start an election at any tick within its election timeout
/// of it; that tick sends nothing and changes neither term nor role.
pub proof fn lemma_heartbeat_defers_election(
    pre: Node,
    term: u64,
    from: Peer,
    now: u64,
    mid: Node,
    persist: Option<LogEntry>,
    later: u64,
    post: Node,
    out: TickOutput,
)
    requires
        pre.heartbeat_step(term, from, now, mid, persist),
        term >= pre.server.term,
        mid.tick_step(later, post, out),
        later <= now + pre.server.timeout,
    ensures
        post.server.term == mid.server.term,
        post.server.state == NodeState::Follower,
        out.messages@.len() == 0,
{
}

/// A vote request answered with a grant is counted by the candidate that
/// sent it: when candidate `a` asks `b` in its own term and `b` grants, the
/// reply `b` sends back raises `a`'s tally by one.
pub proof fn lemma_granted_reply_is_counted(
    a: Node,
    a_self: Peer,
    candidate_id: u64,
    b: Node,
    now1: u64,
    b_post: Node,
    b_out: HandleOutput,
    b_peer: Peer,
    now2: u64,
    a_post: Node,
    a_out: HandleOutput,
)
    requires
        a.server.state == NodeState::Candidate,
        b.handle_step(
            Message::RequestVote { term: a.server.term, candidate_id, port: a.server.address.port },
            a_self,
            now1,
            b_post,
            b_out,
        ),
        b.grants_vote(a.server.term, a_self),
        a.handle_step(b_out.response.unwrap(), b_peer, now2, a_post, a_out),
    ensures
        a_post.votes_received == a.votes_received + 1,
        a_post.server.term == a.server.term,
{
}

/// A refused vote never makes a leader.
pub proof fn lemma_refusal_makes_no_leader(pre: Node, term: u64, now: u64, post: Node)
    requires
        pre.vote_response_step(term, false, now, post),
        pre.server.state != NodeState::Leader,
    ensures
        post.server.state != NodeState::Leader,
        post.votes_received == pre.votes_received,
{
}

/// Within one term a node grants its vote to at most one candidate, through
/// `handle_message`: two vote requests of the same term that are both granted
/// come from peers of the same name.
pub proof fn lemma_handle_grants_one_name_per_term(
    pre: Node,
    term: u64,
    id1: u64,
    port1: u16,
    p: Peer,
    now1: u64,
    mid: Node,
    out1: HandleOutput,
    id2: u64,
    port2: u16,
    q: Peer,
    now2: u64,
    post: Node,
    out2: HandleOutput,
)
    requires
        pre.handle_step(Message::RequestVote { term, candidate_id: id1, port: port1 }, p, now1, mid, out1),
        out1.response matches Some(Message::RequestVoteResponse { vote_granted: true, .. }),
        mid.handle_step(Message::RequestVote { term, candidate_id: id2, port: port2 }, q, now2, post, out2),
        out2.response matches Some(Message::RequestVoteResponse { vote_granted: true, .. }),
    ensures
        q.id@ == p.id@,
{
}

/// A vote request of a newer term is always granted: whatever the node's
/// role or earlier vote, it adopts the term, steps down to follower, votes for
/// the requester and answers yes in the new term.
pub proof fn lemma_newer_vote_request_is_granted(
    pre: Node,
    term: u64,
    candidate_id: u64,
    port: u16,
    from: Peer,
    now: u64,
    post: Node,
    out: HandleOutput,
)
    requires
        pre.handle_step(Message::RequestVote { term, candidate_id, port }, from, now, post, out),
        term > pre.server.term,
    ensures
        out.response == Some(Message::RequestVoteResponse { term, vote_granted: true, _port: pre.server.address.port }),
        post.server.voted_for == Some(from),
        post.server.term == term,
        post.server.state == NodeState::Follower,
        post.server.current_leader is None,
        post.server.next_timeout == Some(now.saturating_add(pre.server.timeout)),
        post.server.log_entries == pre.server.log_entries,
        post.votes_received == pre.votes_received,
        out.to_persist is None,
{
}

/// A vote request of the node's own term is granted exactly when the node
/// has not voted yet or voted for a peer of the requester's name; the term and
/// role stay as they were.
pub proof fn lemma_current_term_vote_request(
    pre: Node,
    candidate_id: u64,
    port: u16,
    from: Peer,
    now: u64,
    post: Node,
    out: HandleOutput,
)
    requires
        pre.handle_step(Message::RequestVote { term: pre.server.term, candidate_id, port }, from, now, post, out),
    ensures
        ({
            let granted = pre.server.voted_for is None || pre.server.voted_for.unwrap().id@ == from.id@;
            &&& out.response == Some(Message::RequestVoteResponse {
                term: pre.server.term,
                vote_granted: granted,
                _port: pre.server.address.port,
            })
            &&& post.server.voted_for == (if granted { Some(from) } else { pre.server.voted_for })
            &&& post.server.next_timeout == (if granted {
                Some(now.saturating_add(pre.server.timeout))
            } else {
                pre.server.next_timeout
            })
        }),
        post.server.term == pre.server.term,
        post.server.state == pre.server.state,
        post.server.current_leader == pre.server.current_leader,
        post.server.log_entries == pre.server.log_entries,
        post.votes_received == pre.votes_received,
        post.last_heartbeat == pre.last_heartbeat,
        out.to_persist is None,
{
}

/// A vote request of an older term is refused and changes nothing the
/// election reads.
pub proof fn lemma_stale_vote_request_is_refused(
    pre: Node,
    term: u64,
    candidate_id: u64,
    port: u16,
    from: Peer,
    now: u64,
    post: Node,
    out: HandleOutput,
)
    requires
        pre.handle_step(Message::RequestVote { term, candidate_id, port }, from, now, post, out),
        term < pre.server.term,
    ensures
        out.response == Some(Message::RequestVoteResponse {
            term: pre.server.term,
            vote_granted: false,
            _port: pre.server.address.port,
        }),
        post.server.voted_for == pre.server.voted_for,
        post.server.term == pre.server.term,
        post.server.state == pre.server.state,
        post.server.next_timeout == pre.server.next_timeout,
{
}

/// A heartbeat whose term is not behind the node's, equal terms included,
/// makes the node a follower of the sender in that term: it names the sender
/// as leader, re-arms its deadline, appends the heartbeat to its log and asks
/// for that same entry to be made durable.
pub proof fn lemma_current_heartbeat_is_followed_and_logged(
    pre: Node,
    term: u64,
    leader_id: u64,
    port: u16,
    from: Peer,
    now: u64,
    post: Node,
    out: HandleOutput,
)
    requires
        pre.handle_step(Message::Heartbeat { term, leader_id, _port: port }, from, now, post, out),
        term >= pre.server.term,
    ensures
        post.server.term == term,
        post.server.state == NodeState::Follower,
        post.server.current_leader == Some(Leader { id: from.id, _term: term }),
        post.server.next_timeout == Some(now.saturating_add(pre.server.timeout)),
        post.server.log_entries@ == pre.server.log_entries@.push(LogEntry::Heartbeat { term, peer_id: from.id }),
        out.to_persist == Some(LogEntry::Heartbeat { term, peer_id: from.id }),
        out.response is None,
{
}

/// A heartbeat of an older term is ignored: nothing is logged and the node's
/// term, role, leader and deadline stay.
pub proof fn lemma_stale_heartbeat_is_ignored(
    pre: Node,
    term: u64,
    leader_id: u64,
    port: u16,
    from: Peer,
    now: u64,
    post: Node,
    out: HandleOutput,
)
    requires
        pre.handle_step(Message::Heartbeat { term, leader_id, _port: port }, from, now, post, out),
        term < pre.server.term,
    ensures
        post.server.term == pre.server.term,
        post.server.state == pre.server.state,
        post.server.current_leader == pre.server.current_leader,
        post.server.next_timeout == pre.server.next_timeout,
        post.server.log_entries == pre.server.log_entries,
        out.to_persist is None,
        out.response is None,
{
}

/// Only votes granted in the node's own term are counted, and only while it
/// is a candidate: a reply that raises the tally is a grant of the current
/// term to a candidate, and raises it by exactly one.
pub proof fn lemma_only_current_term_grants_count(
    pre: Node,
    term: u64,
    vote_granted: bool,
    port: u16,
    from: Peer,
    now: u64,
    post: Node,
    out: HandleOutput,
)
    requires
        pre.handle_step(Message::RequestVoteResponse { term, vote_granted, _port: port }, from, now, post, out),
    ensures
        post.votes_received != pre.votes_received ==> {
            &&& term == pre.server.term
            &&& vote_granted
            &&& pre.server.state == NodeState::Candidate
            &&& post.votes_received == pre.votes_received + 1
        },
        term < pre.server.term ==> {
            &&& post.votes_received == pre.votes_received
            &&& post.server.state == pre.server.state
            &&& post.server.term == pre.server.term
        },
        post.server.state == NodeState::Leader && pre.server.state != NodeState::Leader ==> {
            &&& term == pre.server.term
            &&& vote_granted
            &&& post.votes_received >= majority(pre.server.number_of_peers + 1)
        },
        out.response is None,
{
}

/// A leader that sends a heartbeat at `now` remembers `now` as its last
/// heartbeat, and sends one only when none was sent before or a full
/// heartbeat interval has passed since the last.
pub proof fn lemma_leader_heartbeat_timing(pre: Node, now: u64, post: Node, out: TickOutput)
    requires
        pre.tick_step(now, post, out),
        pre.server.state == NodeState::Leader,
    ensures
        out.messages@.len() > 0 ==> {
            &&& post.last_heartbeat == Some(now)
            &&& (pre.last_heartbeat is None
                || now.saturating_sub(pre.last_heartbeat.unwrap()) >= pre.config.heartbeat_interval)
            &&& out.messages@ == seq![Message::Heartbeat {
                term: pre.server.term,
                leader_id: pre.config.id,
                _port: pre.server.address.port,
            }]
        },
        out.messages@.len() == 0 ==> post.last_heartbeat == pre.last_heartbeat,
{
}

/// Two heartbeats sent by one leader at successive ticks are at least a
/// heartbeat interval apart.
pub proof fn lemma_heartbeats_are_spaced(
    pre: Node,
    t1: u64,
    mid: Node,
    out1: TickOutput,
    t2: u64,
    post: Node,
    out2: TickOutput,
)
    requires
        pre.tick_step(t1, mid, out1),
        mid.tick_step(t2, post, out2),
        pre.server.state == NodeState::Leader,
        out1.messages@.len() > 0,
        out2.messages@.len() > 0,
        t1 <= t2,
    ensures
        t2 - t1 >= pre.config.heartbeat_interval,
{
}

/// A reply of a newer term makes the node a follower of no one in that term,
/// with its deadline re-armed and its vote and tally untouched.
pub proof fn lemma_newer_reply_steps_down(
    pre: Node,
    term: u64,
    vote_granted: bool,
    port: u16,
    from: Peer,
    now: u64,
    post: Node,
    out: HandleOutput,
)
    requires
        pre.handle_step(Message::RequestVoteResponse { term, vote_granted, _port: port }, from, now, post, out),
        term > pre.server.term,
    ensures
        post.server.term == term,
        post.server.state == NodeState::Follower,
        post.server.current_leader is None,
        post.server.next_timeout == Some(now.saturating_add(pre.server.timeout)),
        post.server.voted_for == pre.server.voted_for,
        post.votes_received == pre.votes_received,
{
}

/// A candidate's grant of its own term raises the tally by one, and makes it
/// leader, without a deadline and with a heartbeat due at once, exactly when
/// the tally reaches a majority of the cluster.
pub proof fn lemma_grant_counts_toward_majority(
    pre: Node,
    port: u16,
    from: Peer,
    now: u64,
    post: Node,
    out: HandleOutput,
)
    requires
        pre.handle_step(
            Message::RequestVoteResponse { term: pre.server.term, vote_granted: true, _port: port },
            from,
            now,
            post,
            out,
        ),
        pre.server.state == NodeState::Candidate,
    ensures
        post.votes_received == pre.votes_received + 1,
        post.server.term == pre.server.term,
        (post.server.state == NodeState::Leader) == (pre.votes_received + 1 >= (pre.server.number_of_peers + 1) / 2 + 1),
        post.server.state == NodeState::Leader ==> post.server.next_timeout is None && post.last_heartbeat is None,
        post.server.state != NodeState::Leader ==> post.server.state == NodeState::Candidate,
{
}

/// A follower or candidate whose deadline has passed starts an election in
/// the next term: it becomes a candidate holding its own vote, re-arms its
/// deadline with a timeout drawn from the window, and asks for votes in the
/// new term; one whose deadline has not passed does nothing.
pub proof fn lemma_timeout_starts_election(pre: Node, now: u64, post: Node, out: TickOutput)
    requires
        pre.tick_step(now, post, out),
        pre.server.state != NodeState::Leader,
    ensures
        (match pre.server.next_timeout { Some(t) => now > t, None => false }) ==> {
            &&& post.server.term == pre.server.term + 1
            &&& post.server.state == NodeState::Candidate
            &&& post.votes_received == 1
            &&& post.server.voted_for == Some(Peer { id: pre.server.id, address: pre.server.address })
            &&& pre.config.election_timeout.saturating_add(300) <= post.server.timeout
            &&& post.server.timeout <= pre.config.election_timeout.saturating_add(799)
            &&& post.server.next_timeout == Some(now.saturating_add(post.server.timeout))
            &&& out.messages@ == seq![Message::RequestVote {
                term: (pre.server.term + 1) as u64,
                candidate_id: pre.config.id,
                port: pre.server.address.port,
            }]
            &&& out.to_persist is None
        },
        !(match pre.server.next_timeout { Some(t) => now > t, None => false }) ==> {
            &&& post.server.term == pre.server.term
            &&& post.server.state == pre.server.state
            &&& post.server.voted_for == pre.server.voted_for
            &&& post.server.next_timeout == pre.server.next_timeout
            &&& post.votes_received == pre.votes_received
            &&& out.messages@.len() == 0
            &&& out.to_persist is None
        },
{
}

} // verus!
