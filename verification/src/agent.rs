//! The agent: the registries of consumers, and what the engine is asked to do for each
//! message.

use vstd::prelude::*;
use std::collections::HashMap;
use futures::channel::mpsc::UnboundedReceiver;
use vstd::std_specs::iter::IteratorSpec;
use crate::candidate::Candidate;
use crate::channel::{Feed, FeedView, Offer, Outbox, Signal};
use crate::builder::StreamBuilder;
use crate::message::{
    decode, encode, has_terminator, id_of, key_of, ComponentId, ControlMsg, EngineCall,
};
use crate::state::{ComponentState, Polled, Progress};

verus! {

/// What an agent has registered, and what each consumer was handed so far.
pub struct AgentView {
    /// The dialect of ICE that the agent was created for.
    pub compatibility: Compatibility,
    /// The options that the agent was created with, one bit for each.
    pub options: u32,
    /// For each stream whose candidates have a consumer: the candidates handed to it.
    pub candidate_sinks: Map<u32, Seq<Candidate>>,
    /// For each component whose state has a consumer: the room of its channel, and what was
    /// offered to it.
    pub state_sinks: Map<ComponentId, FeedView<ComponentState>>,
}

/// The dialect of ICE that the engine speaks with its peer.
#[derive(Clone, Copy, Debug, PartialEq, Eq, Structural)]
pub enum Compatibility {
    Rfc5245,
    Google,
    Msn,
    Wlm2009,
    Oc2007,
    Oc2007R2,
}

/// What the agent does next when it is driven.
pub enum Drive {
    /// Make these calls into the engine, in this order, then poll the control channel again.
    Apply(Vec<EngineCall>),
    /// Nothing is queued: wait until something is.
    Suspend,
}

/// The bridge's side of one ICE agent.
///
/// It owns the receiving end of the control channel, on which streams and components queue
/// their requests, and the two registries through which the engine's events reach their
/// consumers. The engine itself belongs to whoever drives the agent.
pub struct Agent {
    compatibility: Compatibility,
    options: u32,
    msgs_sender: Outbox<ControlMsg>,
    msgs: UnboundedReceiver<ControlMsg>,
    candidate_sinks: HashMap<u32, Outbox<Candidate>>,
    state_sinks: HashMap<u64, Feed<ComponentState>>,
}

impl View for Agent {
    type V = AgentView;

    closed spec fn view(&self) -> AgentView {
        AgentView {
            compatibility: self.compatibility,
            options: self.options,
            candidate_sinks: Map::new(
                |stream_id: u32| self.candidate_sinks@.contains_key(stream_id),
                |stream_id: u32| self.candidate_sinks@[stream_id].posted(),
            ),
            state_sinks: Map::new(
                |id: ComponentId| self.state_sinks@.contains_key(key_of(id)),
                |id: ComponentId| self.state_sinks@[key_of(id)]@,
            ),
        }
    }
}

/// An agent at which no stream is known.
pub open spec fn nothing_registered(compatibility: Compatibility, options: u32) -> AgentView {
    AgentView { compatibility, options, candidate_sinks: Map::empty(), state_sinks: Map::empty() }
}

/// Every component that a stream with id `stream_id` may have.
pub open spec fn components_of(stream_id: u32) -> Set<ComponentId> {
    Set::new(|id: ComponentId| id.0 == stream_id)
}

/// What is registered once a stream is forgotten: nothing for any of its components, and
/// nothing for its candidates.
pub open spec fn forgotten(registered: AgentView, stream_id: u32) -> AgentView {
    AgentView {
        candidate_sinks: registered.candidate_sinks.remove(stream_id),
        state_sinks: registered.state_sinks.remove_keys(components_of(stream_id)),
        ..registered
    }
}

/// Forgetting a stream leaves nothing registered for it and leaves every other stream as it
/// was; and to forget it once more changes nothing.
pub proof fn lemma_forgetting(registered: AgentView, stream_id: u32)
    ensures
        forgotten(forgotten(registered, stream_id), stream_id) == forgotten(registered, stream_id),
        !forgotten(registered, stream_id).candidate_sinks.contains_key(stream_id),
        forall|component_id: u32|
            !forgotten(registered, stream_id).state_sinks.contains_key(
                (stream_id, component_id),
            ),
        forall|other: u32|
            other != stream_id && registered.candidate_sinks.contains_key(other) ==> forgotten(
                registered,
                stream_id,
            ).candidate_sinks.contains_key(other) && forgotten(
                registered,
                stream_id,
            ).candidate_sinks[other] == registered.candidate_sinks[other],
        forall|id: ComponentId|
            id.0 != stream_id && registered.state_sinks.contains_key(id) ==> forgotten(
                registered,
                stream_id,
            ).state_sinks.contains_key(id) && forgotten(registered, stream_id).state_sinks[id]
                == registered.state_sinks[id],
        forgotten(registered, stream_id).candidate_sinks.dom().subset_of(
            registered.candidate_sinks.dom(),
        ),
        forgotten(registered, stream_id).state_sinks.dom().subset_of(
            registered.state_sinks.dom(),
        ),
{
    let once = forgotten(registered, stream_id);
    let twice = forgotten(once, stream_id);
    assert(twice.candidate_sinks =~= once.candidate_sinks);
    assert(twice.state_sinks =~= once.state_sinks);
}

/// What is registered once the engine has made `call`: as before, but for a stream that was
/// removed, which is forgotten.
pub open spec fn after_call(registered: AgentView, call: EngineCall) -> AgentView {
    match call {
        EngineCall::RemoveStream { stream_id } => forgotten(registered, stream_id),
        _ => registered,
    }
}

/// What is registered once the engine has made `calls`, one after the other.
pub open spec fn after_calls(registered: AgentView, calls: Seq<EngineCall>) -> AgentView
    decreases calls.len(),
{
    if calls.len() == 0 {
        registered
    } else {
        after_call(after_calls(registered, calls.drop_last()), calls.last())
    }
}

/// A stream that is let go of stays registered while the engine detaches its hooks, so
/// that an event which the engine reports meanwhile finds its consumer, and is forgotten
/// with the last call, which removes it.
pub proof fn lemma_forgotten_with_the_last_call(
    registered: AgentView,
    stream_id: u32,
    components: Set<u32>,
    calls: Seq<EngineCall>,
    made: int,
)
    requires
        is_teardown(calls, stream_id, components),
        0 <= made <= calls.len(),
    ensures
        made < calls.len() ==> after_calls(registered, calls.take(made)) == registered,
        made == calls.len() ==> after_calls(registered, calls.take(made)) == forgotten(
            registered,
            stream_id,
        ),
    decreases made,
{
    if made > 0 {
        lemma_forgotten_with_the_last_call(registered, stream_id, components, calls, made - 1);
        assert(calls.take(made).drop_last() =~= calls.take(made - 1));
        assert(calls.take(made).last() == calls[made - 1]);
        if made < calls.len() {
            assert(calls.drop_last()[made - 1] == calls[made - 1]);
            assert(calls.drop_last().contains(calls[made - 1]));
        }
    }
}

/// The components of stream `stream_id` whose state has a consumer.
pub open spec fn registered_components(view: AgentView, stream_id: u32) -> Set<u32> {
    Set::new(|component_id: u32| view.state_sinks.contains_key((stream_id, component_id)))
}

/// Whether `calls` takes stream `stream_id` out of the engine: one detaching of the receive
/// hook for each of `components`, in any order and none twice, and then the removal of the
/// stream.
pub open spec fn is_teardown(calls: Seq<EngineCall>, stream_id: u32, components: Set<u32>) -> bool {
    &&& calls.len() >= 1
    &&& calls.last() == (EngineCall::RemoveStream { stream_id })
    &&& calls.drop_last().no_duplicates()
    &&& forall|call: EngineCall| #[trigger]
        calls.drop_last().contains(call) <==> exists|component_id: u32|
            components.contains(component_id) && call == (EngineCall::DetachRecv {
                stream_id,
                component_id,
            })
}

/// Whether `key` stands for a component of stream `only`, or `only` names no stream.
spec fn wanted(only: Option<u32>, key: u64) -> bool {
    match only {
        Some(stream_id) => id_of(key).0 == stream_id,
        None => true,
    }
}

/// The consumer of a component's state once its agent has shut down: it was offered what it
/// was offered before, then one last `Disconnected`, and then the end.
pub open spec fn farewell(sink: FeedView<ComponentState>) -> FeedView<ComponentState> {
    FeedView {
        offered: sink.offered.push(Signal::Item(ComponentState::Disconnected)).push(Signal::Close),
        ..sink
    }
}

/// The consumer of a component's state once it was offered `state`.
pub open spec fn told(sink: FeedView<ComponentState>, state: ComponentState) -> FeedView<
    ComponentState,
> {
    FeedView { offered: sink.offered.push(Signal::Item(state)), ..sink }
}

/// Whether `calls` is what the engine is asked to do for `msg`, with `view` registered.
pub open spec fn answers(view: AgentView, msg: ControlMsg, calls: Seq<EngineCall>) -> bool {
    match msg {
        ControlMsg::SetRemoteCredentials(stream_id, ufrag, pwd) => calls == seq![
            EngineCall::SetRemoteCredentials { stream_id, ufrag, pwd },
        ],
        ControlMsg::AddRemoteCandidate(id, candidate) => calls == seq![
            EngineCall::AddRemoteCandidates { stream_id: id.0, component_id: id.1, candidate },
        ],
        ControlMsg::Send(id, payload) => calls == seq![
            EngineCall::Send { stream_id: id.0, component_id: id.1, payload },
        ],
        ControlMsg::DropStream(stream_id) => is_teardown(
            calls,
            stream_id,
            registered_components(view, stream_id),
        ),
    }
}

impl Agent {
    /// Creates an agent for the dialect of RFC 5245 with no option set.
    pub fn new_rfc5245() -> (agent: Agent)
        ensures
            agent@ == nothing_registered(Compatibility::Rfc5245, 0),
    {
        Agent::new(Compatibility::Rfc5245)
    }

    /// Creates an agent for the dialect `compat` with no option set.
    pub fn new(compat: Compatibility) -> (agent: Agent)
        ensures
            agent@ == nothing_registered(compat, 0),
    {
        Agent::construct(compat, 0)
    }

    /// Creates an agent for the dialect `compat` with the options `flags`.
    pub fn new_full(compat: Compatibility, flags: u32) -> (agent: Agent)
        ensures
            agent@ == nothing_registered(compat, flags),
    {
        Agent::construct(compat, flags)
    }

    /// Creates an agent with an open control channel and nothing registered.
    fn construct(compatibility: Compatibility, options: u32) -> (agent: Agent)
        ensures
            agent@ == nothing_registered(compatibility, options),
    {
        let (msgs_sender, msgs) = Outbox::open();
        let agent = Agent {
            compatibility,
            options,
            msgs_sender,
            msgs,
            candidate_sinks: HashMap::new(),
            state_sinks: HashMap::new(),
        };
        assert(agent@.candidate_sinks =~= Map::empty());
        assert(agent@.state_sinks =~= Map::empty());
        agent
    }

    /// The dialect of ICE that the agent was created for.
    pub fn compatibility(&self) -> (compat: Compatibility)
        ensures
            compat == self@.compatibility,
    {
        self.compatibility
    }

    /// The options that the agent was created with.
    pub fn options(&self) -> (flags: u32)
        ensures
            flags == self@.options,
    {
        self.options
    }

    /// The call that tells the engine the name of the software it runs in.
    pub fn set_software(&mut self, name: String) -> (call: EngineCall)
        requires
            !has_terminator(name@),
        ensures
            call == (EngineCall::SetSoftware { name }),
            final(self)@ == old(self)@,
    {
        EngineCall::SetSoftware { name }
    }

    /// The call that tells the engine whether it is in controlling mode, which by default
    /// it is not.
    pub fn set_controlling_mode(&mut self, controlling: bool) -> (call: EngineCall)
        ensures
            call == (EngineCall::SetControllingMode { controlling }),
            final(self)@ == old(self)@,
    {
        EngineCall::SetControllingMode { controlling }
    }

    /// A builder for a stream of `components` components at this agent.
    pub fn stream_builder(&mut self, components: usize) -> (builder: StreamBuilder)
        ensures
            builder@ == crate::builder::blank(components),
            final(self)@ == old(self)@,
    {
        StreamBuilder::new(components)
    }

    /// One step of driving the agent, on what a poll of the control channel found: the
    /// calls for a message that was queued, or nothing to do for now. The control channel
    /// does not end while the agent is there, which holds a sending end of it.
    pub fn poll(&self, polled: Polled<ControlMsg>) -> (next: Drive)
        requires
            polled != Progress::Ready(None::<ControlMsg>),
        ensures
            match polled {
                Progress::Ready(Some(msg)) => next matches Drive::Apply(calls) && answers(
                    self@,
                    msg,
                    calls@,
                ),
                _ => next is Suspend,
            },
    {
        match polled {
            Progress::Ready(Some(msg)) => Drive::Apply(self.handle_msg(msg)),
            _ => Drive::Suspend,
        }
    }

    /// One more sending end of the control channel, for a stream or a component.
    pub fn control_sender(&self) -> (sender: Outbox<ControlMsg>)
        ensures
            sender.posted() == Seq::<ControlMsg>::empty(),
    {
        self.msgs_sender.fork()
    }

    /// The receiving end of the control channel, on which what streams and components have
    /// queued arrives: the agent's own, lent out. What is done to it is done to the agent's,
    /// and nothing else of the agent changes.
    pub fn msgs_mut(&mut self) -> (channel: &mut UnboundedReceiver<ControlMsg>)
        ensures
            *channel == old(self).msgs(),
            *final(self) == old(self).with_msgs(*final(channel)),
            final(self).msgs() == *final(channel),
            final(self)@ == old(self)@,
    {
        &mut self.msgs
    }

    /// The receiving end of the control channel that the agent holds.
    pub closed spec fn msgs(&self) -> UnboundedReceiver<ControlMsg> {
        self.msgs
    }

    /// The agent with `channel` as the receiving end of its control channel, and all else
    /// as it is.
    pub closed spec fn with_msgs(self, channel: UnboundedReceiver<ControlMsg>) -> Self {
        Agent { msgs: channel, ..self }
    }

    /// Whether the candidates of `stream_id` have a consumer.
    pub fn has_candidate_sink(&self, stream_id: u32) -> (found: bool)
        ensures
            found == self@.candidate_sinks.contains_key(stream_id),
    {
        self.candidate_sinks.contains_key(&stream_id)
    }

    /// Whether the state of component `id` has a consumer.
    pub fn has_state_sink(&self, id: ComponentId) -> (found: bool)
        ensures
            found == self@.state_sinks.contains_key(id),
    {
        let key: u64 = encode(id);
        self.state_sinks.contains_key(&key)
    }

    /// Registers the consumer of a stream's candidates, in place of an earlier one.
    pub fn register_candidate_sink(&mut self, stream_id: u32, sink: Outbox<Candidate>)
        ensures
            final(self)@ == (AgentView {
                candidate_sinks: old(self)@.candidate_sinks.insert(stream_id, sink.posted()),
                ..old(self)@
            }),
    {
        self.candidate_sinks.insert(stream_id, sink);
        assert(self@.candidate_sinks =~= old(self)@.candidate_sinks.insert(
            stream_id,
            sink.posted(),
        ));
    }

    /// Registers the consumer of a component's state, in place of an earlier one.
    pub fn register_state_sink(&mut self, id: ComponentId, sink: Feed<ComponentState>)
        ensures
            final(self)@ == (AgentView {
                state_sinks: old(self)@.state_sinks.insert(id, sink@),
                ..old(self)@
            }),
    {
        let key: u64 = encode(id);
        self.state_sinks.insert(key, sink);
        proof {
            crate::message::lemma_keys_match_components();
            assert(self@.state_sinks =~= old(self)@.state_sinks.insert(id, sink@));
        }
    }

    /// The engine found a local candidate of `stream_id`: hands it to the stream's consumer.
    /// A consumer that is gone is taken out of the registry. Returns whether the candidate
    /// was taken.
    pub fn on_new_candidate(&mut self, stream_id: u32, candidate: Candidate) -> (taken: bool)
        requires
            old(self)@.candidate_sinks.contains_key(stream_id),
        ensures
            final(self)@ == (AgentView {
                candidate_sinks: if taken {
                    old(self)@.candidate_sinks.insert(
                        stream_id,
                        old(self)@.candidate_sinks[stream_id].push(candidate),
                    )
                } else {
                    old(self)@.candidate_sinks.remove(stream_id)
                },
                ..old(self)@
            }),
    {
        match self.candidate_sinks.remove(&stream_id) {
            Some(sink) => {
                let mut sink = sink;
                let taken = sink.post(candidate);
                if taken {
                    self.candidate_sinks.insert(stream_id, sink);
                    assert(self@.candidate_sinks =~= old(self)@.candidate_sinks.insert(
                        stream_id,
                        old(self)@.candidate_sinks[stream_id].push(candidate),
                    ));
                } else {
                    assert(self@.candidate_sinks =~= old(self)@.candidate_sinks.remove(
                        stream_id,
                    ));
                }
                taken
            },
            None => false,
        }
    }

    /// The engine has found all local candidates of `stream_id`: the stream's consumer is
    /// taken out of the registry, which ends its sequence of candidates.
    pub fn on_candidate_gathering_done(&mut self, stream_id: u32)
        requires
            old(self)@.candidate_sinks.contains_key(stream_id),
        ensures
            final(self)@ == (AgentView {
                candidate_sinks: old(self)@.candidate_sinks.remove(stream_id),
                ..old(self)@
            }),
    {
        let _ = self.candidate_sinks.remove(&stream_id);
        assert(self@.candidate_sinks =~= old(self)@.candidate_sinks.remove(stream_id));
    }

    /// The engine reports a component in `new_state`: offers the state to the component's
    /// consumer, without waiting. A consumer that is gone is taken out of the registry.
    pub fn on_component_state_changed(
        &mut self,
        stream_id: u32,
        component_id: u32,
        new_state: ComponentState,
    ) -> (answer: Offer)
        requires
            old(self)@.state_sinks.contains_key((stream_id, component_id)),
        ensures
            final(self)@ == (AgentView {
                state_sinks: if answer == Offer::Disconnected {
                    old(self)@.state_sinks.remove((stream_id, component_id))
                } else {
                    old(self)@.state_sinks.insert(
                        (stream_id, component_id),
                        told(old(self)@.state_sinks[(stream_id, component_id)], new_state),
                    )
                },
                ..old(self)@
            }),
    {
        let key: u64 = encode((stream_id, component_id));
        proof {
            crate::message::lemma_keys_match_components();
        }
        match self.state_sinks.remove(&key) {
            Some(sink) => {
                let mut sink = sink;
                let answer = sink.offer(new_state);
                if answer != Offer::Disconnected {
                    self.state_sinks.insert(key, sink);
                    assert(self@.state_sinks =~= old(self)@.state_sinks.insert(
                        (stream_id, component_id),
                        told(old(self)@.state_sinks[(stream_id, component_id)], new_state),
                    ));
                } else {
                    assert(self@.state_sinks =~= old(self)@.state_sinks.remove(
                        (stream_id, component_id),
                    ));
                }
                answer
            },
            None => Offer::Disconnected,
        }
    }

    /// The keys of the components whose state has a consumer, each once: those of stream
    /// `only`, or all of them.
    fn state_keys(&self, only: Option<u32>) -> (found: Vec<u64>)
        ensures
            found@.no_duplicates(),
            forall|key: u64|
                #![trigger found@.contains(key)]
                #![trigger self.state_sinks@.contains_key(key)]
                found@.contains(key) <==> self.state_sinks@.contains_key(key) && wanted(only, key),
    {
        let mut found: Vec<u64> = Vec::new();
        let ghost all = self.state_sinks.keys().remaining();
        let ghost mut seen: int = 0;
        for key in it: self.state_sinks.keys()
            invariant
                it.seq() == all,
                seen == it.index(),
                all.no_duplicates(),
                all.unref().to_set() == self.state_sinks@.dom(),
                found@.no_duplicates(),
                forall|j: int| 0 <= j < found.len() ==> wanted(only, #[trigger] found[j]),
                forall|j: int|
                    0 <= j < found.len() ==> exists|i: int|
                        0 <= i < seen && *all[i] == #[trigger] found[j],
                forall|i: int|
                    0 <= i < seen && wanted(only, *#[trigger] all[i]) ==> found@.contains(*all[i]),
        {
            let id = decode(*key);
            proof {
                assert(all[seen] == key);
            }
            let take = match only {
                Some(stream_id) => id.0 == stream_id,
                None => true,
            };
            if take {
                let ghost before = found@;
                proof {
                    assert forall|j: int| 0 <= j < before.len() implies before[j] != *key by {
                        let i = choose|i: int| 0 <= i < seen && *all[i] == before[j];
                        assert(all[i] != all[seen]);
                    }
                }
                found.push(*key);
                proof {
                    assert forall|i: int|
                        0 <= i < seen + 1 && wanted(only, *#[trigger] all[i]) implies found@.contains(
                        *all[i],
                    ) by {
                        if i < seen {
                            let j = choose|j: int| 0 <= j < before.len() && before[j] == *all[i];
                            assert(found@[j] == *all[i]);
                        } else {
                            assert(found@[found.len() - 1] == *key);
                        }
                    }
                    assert forall|j: int| 0 <= j < found.len() implies exists|i: int|
                        0 <= i < seen + 1 && *all[i] == #[trigger] found[j] by {
                        if j < before.len() {
                            let i = choose|i: int| 0 <= i < seen && *all[i] == before[j];
                            assert(*all[i] == found[j]);
                        } else {
                            assert(*all[seen] == found[j]);
                        }
                    }
                }
            }
            proof {
                seen = seen + 1;
            }
        }
        proof {
            assert forall|key: u64| found@.contains(key) implies self.state_sinks@.contains_key(
                key,
            ) && wanted(only, key) by {
                let j = choose|j: int| 0 <= j < found.len() && found[j] == key;
                let i = choose|i: int| 0 <= i < seen && *all[i] == found[j];
                assert(all.unref()[i] == key);
                assert(all.unref().to_set().contains(key));
            }
            assert forall|key: u64|
                self.state_sinks@.contains_key(key) && wanted(only, key) implies found@.contains(
                key,
            ) by {
                assert(all.unref().to_set().contains(key));
                let i = choose|i: int| 0 <= i < all.unref().len() && all.unref()[i] == key;
                assert(*all[i] == key);
            }
        }
        found
    }

    /// What the engine is asked to do to let go of stream `stream_id`: detach the receive hook
    /// of each component that is registered, then remove the stream. The registries stay as
    /// they are, so that an event which the engine still reports meanwhile finds its consumer.
    pub fn removal_calls(&self, stream_id: u32) -> (calls: Vec<EngineCall>)
        ensures
            is_teardown(calls@, stream_id, registered_components(self@, stream_id)),
    {
        let keys = self.state_keys(Some(stream_id));
        let mut calls: Vec<EngineCall> = Vec::new();
        let mut at: usize = 0;
        proof {
            crate::message::lemma_keys_match_components();
        }
        while at < keys.len()
            invariant
                at <= keys.len(),
                calls.len() == at,
                forall|i: int|
                    0 <= i < at ==> #[trigger] calls[i] == (EngineCall::DetachRecv {
                        stream_id,
                        component_id: id_of(keys[i]).1,
                    }),
            decreases keys.len() - at,
        {
            let id = decode(keys[at]);
            calls.push(EngineCall::DetachRecv { stream_id, component_id: id.1 });
            at = at + 1;
        }
        let ghost detached = calls@;
        calls.push(EngineCall::RemoveStream { stream_id });
        proof {
            let components = registered_components(self@, stream_id);
            assert(calls@.drop_last() =~= detached);
            assert forall|i: int, j: int|
                0 <= i < detached.len() && 0 <= j < detached.len() && i != j implies detached[i]
                != detached[j] by {
                assert(keys[i] != keys[j]);
                assert(keys@.contains(keys[i]) && keys@.contains(keys[j]));
                assert(key_of(id_of(keys[i])) == keys[i]);
                assert(key_of(id_of(keys[j])) == keys[j]);
            }
            assert forall|call: EngineCall| #[trigger]
                detached.contains(call) <==> exists|component_id: u32|
                    components.contains(component_id) && call == (EngineCall::DetachRecv {
                        stream_id,
                        component_id,
                    }) by {
                if detached.contains(call) {
                    let i = choose|i: int| 0 <= i < detached.len() && detached[i] == call;
                    assert(keys@.contains(keys[i]));
                    assert(key_of(id_of(keys[i])) == keys[i]);
                    assert(components.contains(id_of(keys[i]).1));
                }
                if exists|component_id: u32|
                    components.contains(component_id) && call == (EngineCall::DetachRecv {
                        stream_id,
                        component_id,
                    }) {
                    let component_id = choose|component_id: u32|
                        components.contains(component_id) && call == (EngineCall::DetachRecv {
                            stream_id,
                            component_id,
                        });
                    let key = key_of((stream_id, component_id));
                    assert(keys@.contains(key));
                    let i = choose|i: int| 0 <= i < keys.len() && keys[i] == key;
                    assert(detached[i] == call);
                }
            }
        }
        calls
    }

    /// Forgets what is registered for stream `stream_id`: the consumer of each of its
    /// components' state, and that of its candidates. Nothing else changes, and a stream of
    /// which nothing is registered is no error.
    pub fn remove_stream_internal(&mut self, stream_id: u32)
        ensures
            final(self)@ == forgotten(old(self)@, stream_id),
    {
        let keys = self.state_keys(Some(stream_id));
        let mut at: usize = 0;
        while at < keys.len()
            invariant
                at <= keys.len(),
                self.compatibility == old(self).compatibility,
                self.options == old(self).options,
                self.candidate_sinks == old(self).candidate_sinks,
                self.state_sinks@ == old(self).state_sinks@.remove_keys(
                    keys@.take(at as int).to_set(),
                ),
            decreases keys.len() - at,
        {
            let key: u64 = keys[at];
            let _ = self.state_sinks.remove(&key);
            proof {
                assert(keys@.take(at + 1) =~= keys@.take(at as int).push(key));
                assert(keys@.take(at + 1).to_set() =~= keys@.take(at as int).to_set().insert(key))
                    by {
                    vstd::seq_lib::lemma_seq_contains_after_push(keys@.take(at as int), key, key);
                    assert forall|k: u64|
                        keys@.take(at + 1).contains(k) <==> keys@.take(at as int).contains(k) || k
                            == key by {
                        vstd::seq_lib::lemma_seq_contains_after_push(
                            keys@.take(at as int),
                            key,
                            k,
                        );
                    }
                }
                assert(self.state_sinks@ =~= old(self).state_sinks@.remove_keys(
                    keys@.take(at + 1).to_set(),
                ));
            }
            at = at + 1;
        }
        let _ = self.candidate_sinks.remove(&stream_id);
        proof {
            crate::message::lemma_keys_match_components();
            assert(keys@.take(keys.len() as int) =~= keys@);
            assert(self@.state_sinks =~= old(self)@.state_sinks.remove_keys(
                components_of(stream_id),
            ));
            assert(self@.candidate_sinks =~= old(self)@.candidate_sinks.remove(stream_id));
        }
    }

    /// Takes note that the engine has made `call`. Once it has removed a stream, what is
    /// registered for the stream is forgotten; no other call changes anything here.
    pub fn applied(&mut self, call: &EngineCall)
        ensures
            final(self)@ == after_call(old(self)@, *call),
    {
        match call {
            EngineCall::RemoveStream { stream_id } => self.remove_stream_internal(*stream_id),
            _ => {},
        }
    }

    /// What the engine is asked to do for `msg`. For `DropStream` that is to let go of the
    /// stream; once the engine has, `applied` forgets the stream here.
    pub fn handle_msg(&self, msg: ControlMsg) -> (calls: Vec<EngineCall>)
        ensures
            answers(self@, msg, calls@),
    {
        match msg {
            ControlMsg::SetRemoteCredentials(stream_id, ufrag, pwd) => {
                let mut calls: Vec<EngineCall> = Vec::new();
                calls.push(EngineCall::SetRemoteCredentials { stream_id, ufrag, pwd });
                assert(calls@ =~= seq![EngineCall::SetRemoteCredentials { stream_id, ufrag, pwd }]);
                calls
            },
            ControlMsg::AddRemoteCandidate(id, candidate) => {
                let mut calls: Vec<EngineCall> = Vec::new();
                calls.push(
                    EngineCall::AddRemoteCandidates {
                        stream_id: id.0,
                        component_id: id.1,
                        candidate,
                    },
                );
                assert(calls@ =~= seq![
                    EngineCall::AddRemoteCandidates {
                        stream_id: id.0,
                        component_id: id.1,
                        candidate,
                    },
                ]);
                calls
            },
            ControlMsg::Send(id, payload) => {
                let mut calls: Vec<EngineCall> = Vec::new();
                calls.push(EngineCall::Send { stream_id: id.0, component_id: id.1, payload });
                assert(calls@ =~= seq![
                    EngineCall::Send { stream_id: id.0, component_id: id.1, payload },
                ]);
                calls
            },
            ControlMsg::DropStream(stream_id) => self.removal_calls(stream_id),
        }
    }

    /// Ends the agent's work: every consumer of a component's state that is still registered
    /// is offered one last `Disconnected`, and then its channel is closed, so that whoever
    /// waits for a state of that component stops waiting. No event will follow.
    pub fn shutdown(&mut self)
        ensures
            final(self)@ == (AgentView {
                state_sinks: old(self)@.state_sinks.map_values(
                    |sink: FeedView<ComponentState>| farewell(sink),
                ),
                ..old(self)@
            }),
    {
        let keys = self.state_keys(None);
        let mut at: usize = 0;
        while at < keys.len()
            invariant
                at <= keys.len(),
                keys@.no_duplicates(),
                forall|key: u64| keys@.contains(key) <==> old(self).state_sinks@.contains_key(key),
                self.compatibility == old(self).compatibility,
                self.options == old(self).options,
                self.candidate_sinks == old(self).candidate_sinks,
                self.state_sinks@.dom() == old(self).state_sinks@.dom(),
                forall|i: int|
                    0 <= i < at ==> (#[trigger] self.state_sinks@[keys[i]])@ == farewell(
                        old(self).state_sinks@[keys[i]]@,
                    ),
                forall|i: int|
                    at <= i < keys.len() ==> #[trigger] self.state_sinks@[keys[i]] == old(
                        self,
                    ).state_sinks@[keys[i]],
            decreases keys.len() - at,
        {
            let key: u64 = keys[at];
            assert(keys@.contains(key));
            let ghost before = self.state_sinks@;
            match self.state_sinks.remove(&key) {
                Some(sink) => {
                    let mut sink = sink;
                    let _ = sink.offer(ComponentState::Disconnected);
                    sink.close();
                    self.state_sinks.insert(key, sink);
                    proof {
                        assert(self.state_sinks@.dom() =~= old(self).state_sinks@.dom());
                        assert forall|i: int| 0 <= i < at + 1 implies (
                        #[trigger] self.state_sinks@[keys[i]])@ == farewell(
                            old(self).state_sinks@[keys[i]]@,
                        ) by {
                            if i < at {
                                assert(keys[i] != keys[at as int]);
                                assert(self.state_sinks@[keys[i]] == before[keys[i]]);
                            }
                        }
                        assert forall|i: int| at + 1 <= i < keys.len() implies
                            #[trigger] self.state_sinks@[keys[i]] == old(
                            self,
                        ).state_sinks@[keys[i]] by {
                            assert(keys[i] != keys[at as int]);
                            assert(self.state_sinks@[keys[i]] == before[keys[i]]);
                        }
                    }
                },
                None => {},
            }
            at = at + 1;
        }
        proof {
            crate::message::lemma_keys_match_components();
            let goal = old(self)@.state_sinks.map_values(
                |sink: FeedView<ComponentState>| farewell(sink),
            );
            assert forall|id: ComponentId| self@.state_sinks.contains_key(id) implies
                #[trigger] self@.state_sinks[id] == goal[id] by {
                let key = key_of(id);
                assert(keys@.contains(key));
                let i = choose|i: int| 0 <= i < keys.len() && keys[i] == key;
                assert(self.state_sinks@[keys[i]]@ == farewell(old(self).state_sinks@[keys[i]]@));
            }
            assert(self@.state_sinks =~= goal);
            assert(self@.candidate_sinks =~= old(self)@.candidate_sinks);
        }
    }
}

} // verus!
