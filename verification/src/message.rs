//! The messages that carry every change of the engine onto the one thread that owns it, and
//! the calls that the engine is asked to make.

use vstd::prelude::*;
use crate::candidate::Candidate;

verus! {

/// A component within a stream: the stream's id, then the component's id, counted from 1.
pub type ComponentId = (u32, u32);

/// A request to change the engine, queued by a stream or one of its components and applied
/// by the agent in the order of arrival.
#[derive(Debug, PartialEq, Eq)]
pub enum ControlMsg {
    /// Set the remote peer's credentials for a stream: the stream, `ufrag`, `pwd`.
    SetRemoteCredentials(u32, Vec<u8>, Vec<u8>),
    /// Add a candidate of the remote peer to a component.
    AddRemoteCandidate(ComponentId, Candidate),
    /// Send a packet through a component.
    Send(ComponentId, Vec<u8>),
    /// Remove a stream, its components and what is registered for them.
    DropStream(u32),
}

/// One call into the engine that the agent asks for. Whatever the engine answers is
/// discarded: after a stream is gone nobody is left to hear of a failure. When the call is
/// made, `Agent::applied` is told.
#[derive(Clone, Debug, PartialEq, Eq)]
pub enum EngineCall {
    SetSoftware { name: String },
    SetControllingMode { controlling: bool },
    SetRemoteCredentials { stream_id: u32, ufrag: Vec<u8>, pwd: Vec<u8> },
    /// Add one remote candidate. A candidate that the engine cannot take is skipped.
    AddRemoteCandidates { stream_id: u32, component_id: u32, candidate: Candidate },
    Send { stream_id: u32, component_id: u32, payload: Vec<u8> },
    /// Detach the receive hook of a component.
    DetachRecv { stream_id: u32, component_id: u32 },
    /// Remove a stream.
    RemoveStream { stream_id: u32 },
}

/// Whether `name`, written out in UTF-8, holds the byte that ends a C string.
pub open spec fn has_terminator(name: Seq<char>) -> bool {
    vstd::utf8::encode_utf8(name).contains(0u8)
}

/// Whether `name` holds the byte that ends a C string, so that the engine cannot take it.
pub fn holds_terminator(name: &str) -> (found: bool)
    ensures
        found == has_terminator(name@),
{
    let bytes = name.as_bytes();
    let mut at: usize = 0;
    while at < bytes.len()
        invariant
            at <= bytes.len(),
            bytes@ == vstd::utf8::encode_utf8(name@),
            forall|i: int| 0 <= i < at ==> bytes[i] != 0u8,
        decreases bytes.len() - at,
    {
        if bytes[at] == 0 {
            return true;
        }
        at = at + 1;
    }
    false
}

/// The key under which a component is registered: the stream's id in the upper half, the
/// component's id in the lower.
pub open spec fn key_of(id: ComponentId) -> u64 {
    (id.0 as u64 * 0x1_0000_0000 + id.1 as u64) as u64
}

/// The component that a key stands for.
pub open spec fn id_of(key: u64) -> ComponentId {
    ((key / 0x1_0000_0000) as u32, (key % 0x1_0000_0000) as u32)
}

/// Every component has a key of its own, and every key stands for a component.
pub proof fn lemma_keys_match_components()
    ensures
        forall|id: ComponentId| id_of(#[trigger] key_of(id)) == id,
        forall|key: u64| key_of(#[trigger] id_of(key)) == key,
{
}

/// The key of component `id`.
pub(crate) fn encode(id: ComponentId) -> (key: u64)
    ensures
        key == key_of(id),
{
    id.0 as u64 * 0x1_0000_0000 + id.1 as u64
}

/// The component that `key` stands for.
pub(crate) fn decode(key: u64) -> (id: ComponentId)
    ensures
        id == id_of(key),
{
    ((key / 0x1_0000_0000) as u32, (key % 0x1_0000_0000) as u32)
}

} // verus!
