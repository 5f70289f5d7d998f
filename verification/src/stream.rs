//! An ICE stream: its credentials, its components, and the requests it queues for the agent.

use vstd::prelude::*;
use futures::channel::mpsc::UnboundedReceiver;
use crate::agent::Agent;
use crate::builder::StreamBuilder;
use crate::candidate::Candidate;
use crate::channel::Outbox;
use crate::component::{ComponentView, StreamComponent};
use crate::message::ControlMsg;

verus! {

/// What is known of a stream.
pub struct StreamView {
    pub id: u32,
    /// The number of components that the stream was built with.
    pub component_count: usize,
    pub local_ufrag: Seq<char>,
    pub local_pwd: Seq<char>,
    /// The requests that were queued through the stream itself, oldest first.
    pub posted: Seq<ControlMsg>,
    /// The components that the stream still holds, the first component first.
    pub components: Seq<ComponentView>,
}

/// An ICE stream with its components.
///
/// The local candidates of the stream arrive on `candidates_mut` while the engine gathers,
/// and the channel ends when it has found them all. The stream has to be kept while any of
/// its components is in use: `release` asks the agent to remove the stream and whatever is
/// registered for it.
pub struct Stream {
    id: u32,
    component_count: usize,
    local_ufrag: String,
    local_pwd: String,
    msg_sink: Outbox<ControlMsg>,
    candidates: UnboundedReceiver<Candidate>,
    components: Vec<StreamComponent>,
}

/// Whether a stream that was `before` is `after` once its components are taken out, and
/// `taken` is what came out: all that it held, and it holds none now.
pub open spec fn takes(before: StreamView, after: StreamView, taken: Seq<ComponentView>) -> bool {
    &&& taken == before.components
    &&& after == (StreamView { components: Seq::empty(), ..before })
}

/// The components of a stream are taken once: the first taking brings all of them, and one
/// that follows it brings none and changes nothing.
pub proof fn lemma_components_are_taken_once(
    before: StreamView,
    between: StreamView,
    after: StreamView,
    first: Seq<ComponentView>,
    second: Seq<ComponentView>,
)
    requires
        takes(before, between, first),
        takes(between, after, second),
    ensures
        first == before.components,
        second == Seq::<ComponentView>::empty(),
        after == between,
{
}

/// The views of `components`, in the same order.
pub open spec fn views_of(components: Seq<StreamComponent>) -> Seq<ComponentView> {
    components.map_values(|component: StreamComponent| component@)
}

impl View for Stream {
    type V = StreamView;

    closed spec fn view(&self) -> StreamView {
        StreamView {
            id: self.id,
            component_count: self.component_count,
            local_ufrag: self.local_ufrag@,
            local_pwd: self.local_pwd@,
            posted: self.msg_sink.posted(),
            components: views_of(self.components@),
        }
    }
}

impl Stream {
    /// A stream that queues its requests through `msg_sink`.
    pub(crate) fn assemble(
        id: u32,
        component_count: usize,
        local_ufrag: String,
        local_pwd: String,
        msg_sink: Outbox<ControlMsg>,
        candidates: UnboundedReceiver<Candidate>,
        components: Vec<StreamComponent>,
    ) -> (stream: Stream)
        ensures
            stream@ == (StreamView {
                id,
                component_count,
                local_ufrag: local_ufrag@,
                local_pwd: local_pwd@,
                posted: msg_sink.posted(),
                components: views_of(components@),
            }),
    {
        Stream { id, component_count, local_ufrag, local_pwd, msg_sink, candidates, components }
    }

    /// A builder for a stream of `components` components at `agent`.
    pub fn builder(agent: &mut Agent, components: usize) -> (builder: StreamBuilder)
        ensures
            builder@ == crate::builder::blank(components),
            *final(agent) == *old(agent),
    {
        StreamBuilder::new(components)
    }

    /// The id that the engine gave this stream.
    pub fn id(&self) -> (id: u32)
        ensures
            id == self@.id,
    {
        self.id
    }

    /// The local STUN ufrag of this stream.
    pub fn get_local_ufrag(&self) -> (ufrag: &str)
        ensures
            ufrag@ == self@.local_ufrag,
    {
        self.local_ufrag.as_str()
    }

    /// The local STUN pwd of this stream.
    pub fn get_local_pwd(&self) -> (pwd: &str)
        ensures
            pwd@ == self@.local_pwd,
    {
        self.local_pwd.as_str()
    }

    /// Sets the remote STUN credentials of this stream. The request is queued for the agent;
    /// no answer comes back.
    pub fn set_remote_credentials(&mut self, ufrag: Vec<u8>, pwd: Vec<u8>)
        ensures
            final(self)@ == (StreamView {
                posted: old(self)@.posted.push(
                    ControlMsg::SetRemoteCredentials(old(self)@.id, ufrag, pwd),
                ),
                ..old(self)@
            }),
    {
        let msg = ControlMsg::SetRemoteCredentials(self.id, ufrag, pwd);
        let _ = self.msg_sink.post(msg);
    }

    /// Whether `candidate` names a component that this stream was built with: one from 1 to
    /// the number of components.
    pub fn accepts(&self, candidate: &Candidate) -> (fits: bool)
        ensures
            fits == (1 <= candidate.component <= self@.component_count),
    {
        candidate.component > 0 && candidate.component as usize <= self.component_count
    }

    /// Adds a remote ICE candidate to the component that the candidate names. The request is
    /// queued for the agent.
    pub fn add_remote_candidate(&mut self, candidate: Candidate)
        requires
            1 <= candidate.component <= old(self)@.component_count,
        ensures
            final(self)@ == (StreamView {
                posted: old(self)@.posted.push(
                    ControlMsg::AddRemoteCandidate(
                        (old(self)@.id, candidate.component),
                        candidate,
                    ),
                ),
                ..old(self)@
            }),
    {
        let msg = ControlMsg::AddRemoteCandidate((self.id, candidate.component), candidate);
        let _ = self.msg_sink.post(msg);
    }

    /// The components that this stream holds.
    pub fn components(&self) -> (held: &[StreamComponent])
        ensures
            views_of(held@) == self@.components,
    {
        self.components.as_slice()
    }

    /// The components that this stream holds, to work with in place.
    pub fn mut_components(&mut self) -> (held: &mut [StreamComponent])
        ensures
            views_of(held@) == old(self)@.components,
            final(self)@ == (StreamView { components: views_of(final(held)@), ..old(self)@ }),
    {
        self.components.as_mut_slice()
    }

    /// Hands out the components of this stream. The stream holds none afterwards, so a
    /// second call gives an empty `Vec`.
    pub fn take_components(&mut self) -> (taken: Vec<StreamComponent>)
        ensures
            takes(old(self)@, final(self)@, views_of(taken@)),
    {
        let mut taken: Vec<StreamComponent> = Vec::new();
        std::mem::swap(&mut self.components, &mut taken);
        assert(views_of(self.components@) =~= Seq::empty());
        taken
    }

    /// The channel on which the local candidates of this stream arrive: the stream's own
    /// receiving end, lent out. What is done to it is done to the stream's, and nothing
    /// else of the stream changes.
    pub fn candidates_mut(&mut self) -> (channel: &mut UnboundedReceiver<Candidate>)
        ensures
            *channel == old(self).candidates(),
            *final(self) == old(self).with_candidates(*final(channel)),
            final(self).candidates() == *final(channel),
            final(self)@ == old(self)@,
    {
        &mut self.candidates
    }

    /// The receiving end of the channel of candidates that the stream holds.
    pub closed spec fn candidates(&self) -> UnboundedReceiver<Candidate> {
        self.candidates
    }

    /// The stream with `channel` as its channel of candidates, and all else as it is.
    pub closed spec fn with_candidates(self, channel: UnboundedReceiver<Candidate>) -> Self {
        Stream { candidates: channel, ..self }
    }

    /// Asks the agent to remove this stream. To be called once, when the stream is let go.
    pub fn release(&mut self)
        ensures
            final(self)@ == (StreamView {
                posted: old(self)@.posted.push(ControlMsg::DropStream(old(self)@.id)),
                ..old(self)@
            }),
    {
        let msg = ControlMsg::DropStream(self.id);
        let _ = self.msg_sink.post(msg);
    }
}

} // verus!
