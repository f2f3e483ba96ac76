//! Raft leader election whose decisions are proved: the per-node state
//! machine (terms, votes, heartbeats and election deadlines), the naming of
//! peers, and the FROST threshold-signature steps a node takes.

pub mod ids;
pub mod node;
pub mod types;
pub mod signing;
pub mod laws;
