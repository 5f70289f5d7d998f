//! The bridge's types under one roof.

pub use crate::agent::{Agent, Compatibility, Drive};
pub use crate::builder::{
    BuildError, BuildPhase, BuildStep, EngineReply, PortRange, StreamBuild, StreamBuilder,
};
pub use crate::candidate::{Address, Candidate, CandidateType, TcpType, Transport};
pub use crate::channel::{Offer, Signal, MAX_BUFFER};
pub use crate::component::{ComponentStateFuture, Inbound, PacketHook, StreamComponent};
pub use crate::message::{ComponentId, ControlMsg, EngineCall};
pub use crate::state::{ComponentState, Polled, Progress};
pub use crate::stream::Stream;
