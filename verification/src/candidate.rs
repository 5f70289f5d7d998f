//! ICE candidates as plain values.
//!
//! A candidate is produced by the engine while it gathers and is handed to the remote peer.
//! The bridge reads its `component` and carries the rest through untouched.

use vstd::prelude::*;

verus! {

/// The transport protocol of a candidate.
#[derive(Clone, Copy, Debug, PartialEq, Eq, Structural)]
pub enum Transport {
    Udp,
    Tcp,
}

/// How a candidate's address was learned.
#[derive(Clone, Copy, Debug, PartialEq, Eq, Structural)]
pub enum CandidateType {
    Host,
    Srflx,
    Prflx,
    Relay,
}

/// The role a TCP candidate takes in opening the connection.
#[derive(Clone, Copy, Debug, PartialEq, Eq, Structural)]
pub enum TcpType {
    Active,
    Passive,
    Simultaneous,
}

/// A network address: a name still to be resolved, or an IPv4 or IPv6 address as the
/// integer that its bytes spell, the first byte highest.
#[derive(Clone, Debug, PartialEq, Eq)]
pub enum Address {
    Fqdn(String),
    V4(u32),
    V6(u128),
}

/// One ICE candidate.
#[derive(Clone, Debug, PartialEq, Eq)]
pub struct Candidate {
    pub foundation: String,
    /// The component that the candidate belongs to, counted from 1.
    pub component: u32,
    pub transport: Transport,
    pub priority: u64,
    pub address: Address,
    pub port: u32,
    pub c_type: CandidateType,
    pub raddr: Option<Address>,
    pub rport: Option<u32>,
    pub tcp_type: Option<TcpType>,
    pub generation: Option<u32>,
    pub ufrag: Option<String>,
    pub networkcost: Option<u32>,
    pub unknown_extensions: Vec<(String, String)>,
}

} // verus!
