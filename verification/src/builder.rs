//! Building a stream: what is asked for, and the steps by which the engine and the
//! registries are brought to hold it.
//!
//! A build is a conversation with the engine. Each step names the one thing the engine is to
//! do next; the engine's reply brings the following step. Whoever drives the build makes the
//! calls. A build that the engine fails past the first step takes back what it had set up:
//! the engine is asked to remove the stream, and the registries forget it.

use vstd::prelude::*;
use std::collections::HashMap;
use futures::channel::mpsc::{Receiver, UnboundedReceiver};
use crate::agent::{forgotten, is_teardown, registered_components, Agent, AgentView};
use crate::candidate::Candidate;
use crate::channel::{untouched, Feed, Outbox, MAX_BUFFER};
use crate::component::{ComponentView, PacketHook, StreamComponent};
use crate::message::{ComponentId, EngineCall};
use crate::state::ComponentState;
use crate::stream::{views_of, Stream, StreamView};

verus! {

/// The number of packets that wait for a component unless the builder is told otherwise.
pub const DEFAULT_INBOUND_BUFFER: usize = 10;

/// The number of state changes that wait for a component.
pub const STATE_BUFFER: usize = 8;

/// The ports that the host candidates of one component are limited to.
#[derive(Clone, Copy, Debug, PartialEq, Eq, Structural)]
pub struct PortRange {
    /// The component, counted from 1.
    pub component_id: u32,
    pub min_port: u16,
    pub max_port: u16,
}

/// Why a stream could not be built.
#[derive(Clone, Copy, Debug, PartialEq, Eq, Structural)]
pub enum BuildError {
    /// More components were asked for than the engine can count.
    TooManyComponents,
    /// The engine could not add a stream.
    AddStream,
    /// The engine could not attach the receive hook of this component.
    AttachRecv { component_id: u32 },
    /// The engine could not start to gather candidates.
    GatherCandidates,
}

/// What is asked of a stream to be built.
pub struct BuilderView {
    pub components: usize,
    pub inbound_buf_size: usize,
    /// The port range of each component that has one, by the component's index, which counts
    /// from 0.
    pub port_ranges: Map<usize, (u16, u16)>,
}

/// Builder for ICE streams.
pub struct StreamBuilder {
    components: usize,
    inbound_buf_size: usize,
    port_ranges: HashMap<usize, (u16, u16)>,
}

impl View for StreamBuilder {
    type V = BuilderView;

    closed spec fn view(&self) -> BuilderView {
        BuilderView {
            components: self.components,
            inbound_buf_size: self.inbound_buf_size,
            port_ranges: self.port_ranges@,
        }
    }
}

/// The port ranges among `ranges` of the first `count` components, in the order of the
/// components.
pub open spec fn ranges_of(ranges: Map<usize, (u16, u16)>, count: nat) -> Seq<PortRange>
    decreases count,
{
    if count == 0 {
        Seq::empty()
    } else {
        let index = (count - 1) as usize;
        let before = ranges_of(ranges, (count - 1) as nat);
        if ranges.contains_key(index) {
            before.push(
                PortRange {
                    component_id: count as u32,
                    min_port: ranges[index].0,
                    max_port: ranges[index].1,
                },
            )
        } else {
            before
        }
    }
}

/// What a new builder asks for: `components` components, room for ten packets to wait for
/// each, and no limit on ports.
pub open spec fn blank(components: usize) -> BuilderView {
    BuilderView {
        components,
        inbound_buf_size: DEFAULT_INBOUND_BUFFER,
        port_ranges: Map::empty(),
    }
}

impl StreamBuilder {
    /// A builder for a stream of `components` components, with room for ten packets to wait
    /// for each and no limit on ports.
    pub fn new(components: usize) -> (builder: StreamBuilder)
        ensures
            builder@ == blank(components),
    {
        StreamBuilder {
            components,
            inbound_buf_size: DEFAULT_INBOUND_BUFFER,
            port_ranges: HashMap::new(),
        }
    }

    /// Sets how many packets may wait for each component to read them. A stream can be
    /// built with a size below `MAX_BUFFER`.
    pub fn set_inbound_buffer_size(&mut self, size: usize) -> (this: &mut Self)
        ensures
            this@ == (BuilderView { inbound_buf_size: size, ..old(self)@ }),
            *final(self) == *final(this),
    {
        self.inbound_buf_size = size;
        self
    }

    /// Limits the ports of the host candidates of every component to `min_port..=max_port`,
    /// in place of any limit set before. A build fails when the range is used up.
    pub fn set_port_range(&mut self, min_port: u16, max_port: u16) -> (this: &mut Self)
        ensures
            this@ == (BuilderView {
                port_ranges: old(self)@.port_ranges.union_prefer_right(
                    Map::new(
                        |index: usize| index < old(self)@.components,
                        |index: usize| (min_port, max_port),
                    ),
                ),
                ..old(self)@
            }),
            *final(self) == *final(this),
    {
        let mut index: usize = 0;
        while index < self.components
            invariant
                index <= self.components,
                self.components == old(self).components,
                self.inbound_buf_size == old(self).inbound_buf_size,
                self.port_ranges@ == old(self).port_ranges@.union_prefer_right(
                    Map::new(|i: usize| i < index, |i: usize| (min_port, max_port)),
                ),
            decreases self.components - index,
        {
            self.port_ranges.insert(index, (min_port, max_port));
            index = index + 1;
            assert(self.port_ranges@ =~= old(self).port_ranges@.union_prefer_right(
                Map::new(|i: usize| i < index, |i: usize| (min_port, max_port)),
            ));
        }
        self
    }

    /// Limits the ports of the host candidates of the component at `component_index`, where
    /// the first component has index 0.
    pub fn set_component_port_range(
        &mut self,
        component_index: usize,
        min_port: u16,
        max_port: u16,
    ) -> (this: &mut Self)
        requires
            component_index < old(self)@.components,
        ensures
            this@ == (BuilderView {
                port_ranges: old(self)@.port_ranges.insert(component_index, (min_port, max_port)),
                ..old(self)@
            }),
            *final(self) == *final(this),
    {
        self.port_ranges.insert(component_index, (min_port, max_port));
        self
    }

    /// The number of components asked for.
    pub fn components(&self) -> (components: usize)
        ensures
            components == self@.components,
    {
        self.components
    }

    /// The number of packets that may wait for each component.
    pub fn inbound_buffer_size(&self) -> (size: usize)
        ensures
            size == self@.inbound_buf_size,
    {
        self.inbound_buf_size
    }

    /// The port ranges of the first `count` components, in their order.
    fn port_ranges(&self, count: u32) -> (listed: Vec<PortRange>)
        ensures
            listed@ == ranges_of(self@.port_ranges, count as nat),
    {
        let mut listed: Vec<PortRange> = Vec::new();
        let mut index: u32 = 0;
        while index < count
            invariant
                index <= count,
                listed@ == ranges_of(self.port_ranges@, index as nat),
            decreases count - index,
        {
            let key: usize = index as usize;
            match self.port_ranges.get(&key) {
                Some(range) => {
                    listed.push(
                        PortRange {
                            component_id: index + 1,
                            min_port: range.0,
                            max_port: range.1,
                        },
                    );
                },
                None => {},
            }
            index = index + 1;
        }
        listed
    }

    /// Starts to build the stream. The answer is the build and its first step: the engine
    /// is to add a stream, unless more components are asked for than it can count.
    pub fn build(&self) -> (started: (StreamBuild, BuildStep))
        requires
            self@.inbound_buf_size < MAX_BUFFER,
        ensures
            started.0.wf(),
            starts(self@, started.0@, started.1@),
    {
        if self.components > u32::MAX as usize {
            let build = StreamBuild {
                phase: BuildPhase::Done,
                component_count: 0,
                inbound_buf_size: self.inbound_buf_size,
                port_ranges: Vec::new(),
                stream_id: 0,
                local_ufrag: String::new(),
                local_pwd: String::new(),
                components: Vec::new(),
                source: None,
                candidates: None,
                failure: BuildError::TooManyComponents,
            };
            assert(views_of(build.components@) =~= Seq::empty());
            (build, BuildStep::Failed(BuildError::TooManyComponents))
        } else {
            let count: u32 = self.components as u32;
            let build = StreamBuild {
                phase: BuildPhase::AddingStream,
                component_count: self.components,
                inbound_buf_size: self.inbound_buf_size,
                port_ranges: self.port_ranges(count),
                stream_id: 0,
                local_ufrag: String::new(),
                local_pwd: String::new(),
                components: Vec::new(),
                source: None,
                candidates: None,
                failure: BuildError::AddStream,
            };
            assert(views_of(build.components@) =~= Seq::empty());
            (build, BuildStep::AddStream { components: count })
        }
    }
}

/// How far a build has come: what it waits for.
#[derive(Clone, Copy, Debug, PartialEq, Eq, Structural)]
pub enum BuildPhase {
    /// For the engine to add the stream.
    AddingStream,
    /// For the local credentials of the stream.
    ReadingCredentials,
    /// For the receive hook of the next component to be attached.
    Attaching,
    /// For the gathering of candidates to start.
    Gathering,
    /// For the engine to remove the stream, after a failure.
    Removing,
    /// For nothing: the build is over.
    Done,
}

/// What the engine answered to the step before.
#[derive(Debug, PartialEq, Eq)]
pub enum EngineReply {
    /// The id of the stream that was added, or `None` when none could be.
    StreamAdded(Option<u32>),
    /// The local credentials of the stream: `ufrag`, then `pwd`.
    Credentials(String, String),
    /// Whether the receive hook was attached.
    Attached(bool),
    /// Whether the gathering of candidates has started.
    Gathered(bool),
    /// The stream was removed.
    Removed,
}

/// The next thing to do in a build, or its end.
pub enum BuildStep {
    /// Add a stream of `components` components. Reply with `StreamAdded`.
    AddStream { components: u32 },
    /// Read the local credentials of the stream. Reply with `Credentials`.
    LocalCredentials { stream_id: u32 },
    /// Attach `hook` as the receive hook of the component. Reply with `Attached`.
    AttachRecv { stream_id: u32, component_id: u32, hook: PacketHook },
    /// Set each of the port ranges, then start to gather candidates. Reply with `Gathered`.
    Gather { stream_id: u32, port_ranges: Vec<PortRange> },
    /// Make these calls, which take the stream out of the engine. Reply with `Removed`.
    Remove { calls: Vec<EngineCall> },
    /// The stream is built.
    Built(Stream),
    /// The stream could not be built, and nothing is left of it.
    Failed(BuildError),
}

/// A step without what is carried through it.
pub enum StepView {
    AddStream { components: u32 },
    LocalCredentials { stream_id: u32 },
    AttachRecv { stream_id: u32, component_id: u32 },
    Gather { stream_id: u32, port_ranges: Seq<PortRange> },
    Remove { calls: Seq<EngineCall> },
    Built(StreamView),
    Failed(BuildError),
}

impl View for BuildStep {
    type V = StepView;

    open spec fn view(&self) -> StepView {
        match *self {
            BuildStep::AddStream { components } => StepView::AddStream { components },
            BuildStep::LocalCredentials { stream_id } => StepView::LocalCredentials { stream_id },
            BuildStep::AttachRecv { stream_id, component_id, hook } => StepView::AttachRecv {
                stream_id,
                component_id,
            },
            BuildStep::Gather { stream_id, port_ranges } => StepView::Gather {
                stream_id,
                port_ranges: port_ranges@,
            },
            BuildStep::Remove { calls } => StepView::Remove { calls: calls@ },
            BuildStep::Built(stream) => StepView::Built(stream@),
            BuildStep::Failed(error) => StepView::Failed(error),
        }
    }
}

/// What is known of a build.
pub struct BuildView {
    pub phase: BuildPhase,
    /// The number of components asked for.
    pub component_count: usize,
    pub inbound_buf_size: usize,
    pub port_ranges: Seq<PortRange>,
    /// The id of the stream, once the engine has added it.
    pub stream_id: u32,
    pub local_ufrag: Seq<char>,
    pub local_pwd: Seq<char>,
    /// The components set up so far, the first component first.
    pub components: Seq<ComponentView>,
    /// Why the build fails, while the stream is being removed.
    pub failure: BuildError,
}

/// A component as it is when its stream has just been built.
pub open spec fn fresh_component(stream_id: u32, component_id: u32) -> ComponentView {
    ComponentView {
        stream_id,
        component_id,
        state: ComponentState::Disconnected,
        posted: Seq::empty(),
    }
}

impl BuildView {
    /// Whether the components set up so far are the first ones of the stream, untouched.
    pub open spec fn in_step(self) -> bool {
        &&& self.component_count <= u32::MAX
        &&& self.inbound_buf_size < MAX_BUFFER
        &&& self.components.len() <= self.component_count
        &&& forall|i: int|
            0 <= i < self.components.len() ==> #[trigger] self.components[i] == fresh_component(
                self.stream_id,
                (i + 1) as u32,
            )
    }

    /// What holds of every build: the components set up so far are the first ones of the
    /// stream, untouched, and there are as many as the phase says.
    pub open spec fn wf(self) -> bool {
        &&& self.in_step()
        &&& self.phase == BuildPhase::AddingStream ==> self.components.len() == 0
        &&& self.phase == BuildPhase::ReadingCredentials ==> self.components.len() == 0
        &&& self.phase == BuildPhase::Attaching ==> self.components.len() < self.component_count
        &&& self.phase == BuildPhase::Gathering ==> self.components.len() == self.component_count
    }
}

/// Whether `reply` answers what a build in `phase` waits for.
pub open spec fn expects(phase: BuildPhase, reply: EngineReply) -> bool {
    match phase {
        BuildPhase::AddingStream => reply is StreamAdded,
        BuildPhase::ReadingCredentials => reply is Credentials,
        BuildPhase::Attaching => reply is Attached,
        BuildPhase::Gathering => reply is Gathered,
        BuildPhase::Removing => reply is Removed,
        BuildPhase::Done => false,
    }
}

/// Whether a build of what `asked` describes starts as `build` with `step`.
pub open spec fn starts(asked: BuilderView, build: BuildView, step: StepView) -> bool {
    if asked.components > u32::MAX {
        &&& build.phase == BuildPhase::Done
        &&& step == StepView::Failed(BuildError::TooManyComponents)
    } else {
        &&& build == (BuildView {
            phase: BuildPhase::AddingStream,
            component_count: asked.components,
            inbound_buf_size: asked.inbound_buf_size,
            port_ranges: ranges_of(asked.port_ranges, asked.components as nat),
            stream_id: 0,
            local_ufrag: Seq::empty(),
            local_pwd: Seq::empty(),
            components: Seq::empty(),
            failure: BuildError::AddStream,
        })
        &&& step == (StepView::AddStream { components: asked.components as u32 })
    }
}

/// The build goes on to attach the receive hook of its next component.
pub open spec fn attaches(
    at: BuildView,
    registered: AgentView,
    after: BuildView,
    left: AgentView,
    step: StepView,
) -> bool {
    &&& after == (BuildView { phase: BuildPhase::Attaching, ..at })
    &&& left == registered
    &&& step == (StepView::AttachRecv {
        stream_id: at.stream_id,
        component_id: (at.components.len() + 1) as u32,
    })
}

/// The build registers the consumer of the stream's candidates and goes on to gather them.
pub open spec fn gathers(
    at: BuildView,
    registered: AgentView,
    after: BuildView,
    left: AgentView,
    step: StepView,
) -> bool {
    &&& after == (BuildView { phase: BuildPhase::Gathering, ..at })
    &&& left == (AgentView {
        candidate_sinks: registered.candidate_sinks.insert(at.stream_id, Seq::empty()),
        ..registered
    })
    &&& step == (StepView::Gather { stream_id: at.stream_id, port_ranges: at.port_ranges })
}

/// The build has failed with `failure` and goes on to have the stream removed from the
/// engine. The registries stay as they are until that is done.
pub open spec fn removes(
    at: BuildView,
    failure: BuildError,
    registered: AgentView,
    after: BuildView,
    left: AgentView,
    step: StepView,
) -> bool {
    &&& after == (BuildView { phase: BuildPhase::Removing, failure, ..at })
    &&& left == registered
    &&& step matches StepView::Remove { calls }
    &&& is_teardown(calls, at.stream_id, registered_components(registered, at.stream_id))
}

/// Whether a build that was `before`, with `registered` at the agent, comes to be `after`
/// with `left` at the agent and `step` to do next, on `reply` from the engine.
pub open spec fn advances(
    before: BuildView,
    registered: AgentView,
    reply: EngineReply,
    after: BuildView,
    left: AgentView,
    step: StepView,
) -> bool {
    match (before.phase, reply) {
        (BuildPhase::AddingStream, EngineReply::StreamAdded(None)) => {
            &&& after.phase == BuildPhase::Done
            &&& left == registered
            &&& step == StepView::Failed(BuildError::AddStream)
        },
        (BuildPhase::AddingStream, EngineReply::StreamAdded(Some(stream_id))) => {
            &&& after == (BuildView { phase: BuildPhase::ReadingCredentials, stream_id, ..before })
            &&& left == registered
            &&& step == (StepView::LocalCredentials { stream_id })
        },
        (BuildPhase::ReadingCredentials, EngineReply::Credentials(ufrag, pwd)) => {
            let known = BuildView { local_ufrag: ufrag@, local_pwd: pwd@, ..before };
            if before.component_count == 0 {
                gathers(known, registered, after, left, step)
            } else {
                attaches(known, registered, after, left, step)
            }
        },
        (BuildPhase::Attaching, EngineReply::Attached(false)) => removes(
            before,
            BuildError::AttachRecv { component_id: (before.components.len() + 1) as u32 },
            registered,
            after,
            left,
            step,
        ),
        (BuildPhase::Attaching, EngineReply::Attached(true)) => {
            let component_id = (before.components.len() + 1) as u32;
            let grown = BuildView {
                components: before.components.push(
                    fresh_component(before.stream_id, component_id),
                ),
                ..before
            };
            let known = AgentView {
                state_sinks: registered.state_sinks.insert(
                    (before.stream_id, component_id),
                    untouched(STATE_BUFFER),
                ),
                ..registered
            };
            if grown.components.len() < before.component_count {
                attaches(grown, known, after, left, step)
            } else {
                gathers(grown, known, after, left, step)
            }
        },
        (BuildPhase::Gathering, EngineReply::Gathered(true)) => {
            &&& after.phase == BuildPhase::Done
            &&& left == registered
            &&& step == StepView::Built(
                StreamView {
                    id: before.stream_id,
                    component_count: before.component_count,
                    local_ufrag: before.local_ufrag,
                    local_pwd: before.local_pwd,
                    posted: Seq::empty(),
                    components: before.components,
                },
            )
        },
        (BuildPhase::Gathering, EngineReply::Gathered(false)) => removes(
            before,
            BuildError::GatherCandidates,
            registered,
            after,
            left,
            step,
        ),
        (BuildPhase::Removing, EngineReply::Removed) => {
            &&& after.phase == BuildPhase::Done
            &&& left == forgotten(registered, before.stream_id)
            &&& step == StepView::Failed(before.failure)
        },
        _ => false,
    }
}

/// A copy of `ranges`.
fn copy_of(ranges: &Vec<PortRange>) -> (copy: Vec<PortRange>)
    ensures
        copy@ == ranges@,
{
    let mut copy: Vec<PortRange> = Vec::new();
    let mut at: usize = 0;
    while at < ranges.len()
        invariant
            at <= ranges.len(),
            copy@ == ranges@.take(at as int),
        decreases ranges.len() - at,
    {
        copy.push(ranges[at]);
        at = at + 1;
        assert(copy@ =~= ranges@.take(at as int));
    }
    assert(ranges@.take(ranges.len() as int) =~= ranges@);
    copy
}

/// A stream that is being built.
pub struct StreamBuild {
    phase: BuildPhase,
    component_count: usize,
    inbound_buf_size: usize,
    port_ranges: Vec<PortRange>,
    stream_id: u32,
    local_ufrag: String,
    local_pwd: String,
    components: Vec<StreamComponent>,
    source: Option<Receiver<Vec<u8>>>,
    candidates: Option<UnboundedReceiver<Candidate>>,
    failure: BuildError,
}

impl View for StreamBuild {
    type V = BuildView;

    closed spec fn view(&self) -> BuildView {
        BuildView {
            phase: self.phase,
            component_count: self.component_count,
            inbound_buf_size: self.inbound_buf_size,
            port_ranges: self.port_ranges@,
            stream_id: self.stream_id,
            local_ufrag: self.local_ufrag@,
            local_pwd: self.local_pwd@,
            components: views_of(self.components@),
            failure: self.failure,
        }
    }
}

impl StreamBuild {
    /// A build is well formed when what is known of it is, and it holds the channel ends
    /// that its next step hands on.
    pub closed spec fn wf(&self) -> bool {
        &&& self@.wf()
        &&& self.phase == BuildPhase::Attaching ==> self.source is Some
        &&& self.phase == BuildPhase::Gathering ==> self.candidates is Some
    }

    /// What the build waits for.
    pub fn phase(&self) -> (phase: BuildPhase)
        ensures
            phase == self@.phase,
    {
        self.phase
    }

    /// Whether `reply` answers what the build waits for.
    pub fn accepts(&self, reply: &EngineReply) -> (fits: bool)
        ensures
            fits == expects(self@.phase, *reply),
    {
        match self.phase {
            BuildPhase::AddingStream => match reply {
                EngineReply::StreamAdded(_) => true,
                _ => false,
            },
            BuildPhase::ReadingCredentials => match reply {
                EngineReply::Credentials(_, _) => true,
                _ => false,
            },
            BuildPhase::Attaching => match reply {
                EngineReply::Attached(_) => true,
                _ => false,
            },
            BuildPhase::Gathering => match reply {
                EngineReply::Gathered(_) => true,
                _ => false,
            },
            BuildPhase::Removing => match reply {
                EngineReply::Removed => true,
                _ => false,
            },
            BuildPhase::Done => false,
        }
    }

    /// Opens the channel of packets of the next component and asks for its hook to be
    /// attached.
    fn attach_next(&mut self) -> (step: BuildStep)
        requires
            old(self)@.in_step(),
            old(self)@.components.len() < old(self)@.component_count,
        ensures
            final(self).wf(),
            final(self)@ == (BuildView { phase: BuildPhase::Attaching, ..old(self)@ }),
            step@ == (StepView::AttachRecv {
                stream_id: old(self)@.stream_id,
                component_id: (old(self)@.components.len() + 1) as u32,
            }),
            step matches BuildStep::AttachRecv { hook, .. } && hook@ == untouched::<Vec<u8>>(
                old(self)@.inbound_buf_size,
            ),
    {
        let (feed, source) = Feed::open(self.inbound_buf_size);
        self.source = Some(source);
        self.phase = BuildPhase::Attaching;
        let component_id: u32 = (self.components.len() + 1) as u32;
        BuildStep::AttachRecv { stream_id: self.stream_id, component_id, hook: PacketHook::new(feed) }
    }

    /// Opens the channel of candidates, registers its sending end, and asks for the port
    /// ranges to be set and the gathering to start.
    fn gather(&mut self, agent: &mut Agent) -> (step: BuildStep)
        requires
            old(self)@.in_step(),
            old(self)@.components.len() == old(self)@.component_count,
        ensures
            final(self).wf(),
            gathers(old(self)@, old(agent)@, final(self)@, final(agent)@, step@),
    {
        let (sink, candidates) = Outbox::open();
        agent.register_candidate_sink(self.stream_id, sink);
        self.candidates = Some(candidates);
        self.phase = BuildPhase::Gathering;
        let port_ranges = copy_of(&self.port_ranges);
        BuildStep::Gather { stream_id: self.stream_id, port_ranges }
    }

    /// Gives up the build with `failure` and asks for the stream to be removed.
    fn give_up(&mut self, agent: &Agent, failure: BuildError) -> (step: BuildStep)
        requires
            old(self)@.in_step(),
        ensures
            final(self).wf(),
            removes(old(self)@, failure, agent@, final(self)@, agent@, step@),
    {
        self.failure = failure;
        self.phase = BuildPhase::Removing;
        BuildStep::Remove { calls: agent.removal_calls(self.stream_id) }
    }

    /// Takes in the engine's reply to the step before, does at the agent what the reply
    /// calls for, and answers with the next step.
    ///
    /// The stream is added first and its credentials read. Then, for one component after
    /// the other, the receive hook is attached, and once it is, the consumer of the
    /// component's state is registered. Last the consumer of the stream's candidates is
    /// registered and the gathering started. A refusal of the engine on the way has the
    /// stream removed again, after which the agent forgets it.
    pub fn advance(&mut self, agent: &mut Agent, reply: EngineReply) -> (step: BuildStep)
        requires
            old(self).wf(),
            expects(old(self)@.phase, reply),
        ensures
            final(self).wf(),
            advances(old(self)@, old(agent)@, reply, final(self)@, final(agent)@, step@),
            step matches BuildStep::AttachRecv { hook, .. } ==> hook@ == untouched::<Vec<u8>>(
                old(self)@.inbound_buf_size,
            ),
    {
        match reply {
            EngineReply::StreamAdded(None) => {
                self.phase = BuildPhase::Done;
                BuildStep::Failed(BuildError::AddStream)
            },
            EngineReply::StreamAdded(Some(stream_id)) => {
                self.stream_id = stream_id;
                self.phase = BuildPhase::ReadingCredentials;
                assert(views_of(self.components@) =~= Seq::empty());
                BuildStep::LocalCredentials { stream_id }
            },
            EngineReply::Credentials(ufrag, pwd) => {
                self.local_ufrag = ufrag;
                self.local_pwd = pwd;
                if self.component_count == 0 {
                    self.gather(agent)
                } else {
                    self.attach_next()
                }
            },
            EngineReply::Attached(false) => {
                let component_id: u32 = (self.components.len() + 1) as u32;
                self.give_up(agent, BuildError::AttachRecv { component_id })
            },
            EngineReply::Attached(true) => {
                let component_id: u32 = (self.components.len() + 1) as u32;
                let (state_sender, state_stream) = Feed::open(STATE_BUFFER);
                agent.register_state_sink((self.stream_id, component_id), state_sender);
                let source = self.source.take();
                match source {
                    Some(source) => {
                        let component = StreamComponent::new(
                            self.stream_id,
                            component_id,
                            state_stream,
                            source,
                            agent.control_sender(),
                        );
                        self.components.push(component);
                        assert(views_of(self.components@) =~= views_of(
                            old(self).components@,
                        ).push(fresh_component(self.stream_id, component_id)));
                    },
                    None => {},
                }
                if self.components.len() < self.component_count {
                    self.attach_next()
                } else {
                    self.gather(agent)
                }
            },
            EngineReply::Gathered(true) => {
                self.phase = BuildPhase::Done;
                let mut components: Vec<StreamComponent> = Vec::new();
                std::mem::swap(&mut self.components, &mut components);
                let mut local_ufrag = String::new();
                std::mem::swap(&mut self.local_ufrag, &mut local_ufrag);
                let mut local_pwd = String::new();
                std::mem::swap(&mut self.local_pwd, &mut local_pwd);
                assert(views_of(self.components@) =~= Seq::empty());
                match self.candidates.take() {
                    Some(candidates) => BuildStep::Built(
                        Stream::assemble(
                            self.stream_id,
                            self.component_count,
                            local_ufrag,
                            local_pwd,
                            agent.control_sender(),
                            candidates,
                            components,
                        ),
                    ),
                    None => BuildStep::Failed(BuildError::GatherCandidates),
                }
            },
            EngineReply::Gathered(false) => self.give_up(agent, BuildError::GatherCandidates),
            EngineReply::Removed => {
                agent.remove_stream_internal(self.stream_id);
                self.phase = BuildPhase::Done;
                BuildStep::Failed(self.failure)
            },
        }
    }
}

/// What is registered once the consumers of the state of the first `count` components of a
/// stream have been added to `registered`, each with room for `STATE_BUFFER` states and none
/// offered anything yet.
pub open spec fn attached(registered: AgentView, stream_id: u32, count: nat) -> AgentView
    decreases count,
{
    if count == 0 {
        registered
    } else {
        let before = attached(registered, stream_id, (count - 1) as nat);
        AgentView {
            state_sinks: before.state_sinks.insert(
                (stream_id, count as u32),
                untouched(STATE_BUFFER),
            ),
            ..before
        }
    }
}

/// Whether a build has brought the agent from `start` to `now` by its own steps alone: the
/// consumers of the components set up so far are registered, and from the gathering on the
/// consumer of the candidates too.
pub open spec fn on_track(build: BuildView, start: AgentView, now: AgentView) -> bool {
    match build.phase {
        BuildPhase::AddingStream | BuildPhase::ReadingCredentials => now == start,
        BuildPhase::Attaching => now == attached(
            start,
            build.stream_id,
            build.components.len(),
        ),
        BuildPhase::Gathering => now == (AgentView {
            candidate_sinks: attached(
                start,
                build.stream_id,
                build.component_count as nat,
            ).candidate_sinks.insert(build.stream_id, Seq::empty()),
            ..attached(start, build.stream_id, build.component_count as nat)
        }),
        BuildPhase::Removing | BuildPhase::Done => true,
    }
}

/// A build that the engine does not refuse stays on track from step to step, as long as
/// nothing else changes the agent meanwhile. So when the gathering has started, the stream
/// is handed out with all its components, each as new, and at the agent the consumer of
/// each component's state and that of the stream's candidates are registered.
pub proof fn lemma_build_stays_on_track(
    before: BuildView,
    start: AgentView,
    registered: AgentView,
    reply: EngineReply,
    after: BuildView,
    left: AgentView,
    step: StepView,
)
    requires
        before.wf(),
        on_track(before, start, registered),
        advances(before, registered, reply, after, left, step),
        reply != EngineReply::StreamAdded(None),
        reply != EngineReply::Attached(false),
        reply != EngineReply::Gathered(false),
    ensures
        on_track(after, start, left),
        reply == EngineReply::Gathered(true) ==> {
            &&& left == registered
            &&& step matches StepView::Built(stream)
            &&& stream.id == before.stream_id
            &&& stream.component_count == before.component_count
            &&& stream.components.len() == before.component_count
            &&& forall|i: int|
                0 <= i < stream.components.len() ==> #[trigger] stream.components[i]
                    == fresh_component(before.stream_id, (i + 1) as u32)
            &&& left.candidate_sinks.contains_key(before.stream_id)
            &&& forall|component_id: u32|
                1 <= component_id <= before.component_count ==> left.state_sinks.contains_key(
                    (before.stream_id, component_id),
                )
        },
{
    if reply == EngineReply::Gathered(true) {
        lemma_attached_holds_all(start, before.stream_id, before.component_count as nat);
    }
}

/// Once the consumers of the first `count` components are added, each of them is
/// registered, and whatever was registered for anything else is as before.
pub proof fn lemma_attached_holds_all(registered: AgentView, stream_id: u32, count: nat)
    requires
        count <= u32::MAX,
    ensures
        attached(registered, stream_id, count).candidate_sinks == registered.candidate_sinks,
        forall|component_id: u32|
            1 <= component_id <= count ==> attached(
                registered,
                stream_id,
                count,
            ).state_sinks.contains_key((stream_id, component_id)),
        forall|id: ComponentId|
            !(id.0 == stream_id && 1 <= id.1 <= count) ==> attached(
                registered,
                stream_id,
                count,
            ).state_sinks.contains_key(id) == registered.state_sinks.contains_key(id),
    decreases count,
{
    if count > 0 {
        lemma_attached_holds_all(registered, stream_id, (count - 1) as nat);
    }
}

/// When the engine refuses to attach a hook or to gather, the build asks for exactly the
/// calls that take the stream out of the engine; and when those are made, the build ends in
/// failure and the agent has nothing registered for the stream: no consumer of any of its
/// components' state, none of its candidates. What went on at the agent between the two
/// steps does not matter.
pub proof fn lemma_failed_build_leaves_nothing(
    before: BuildView,
    registered: AgentView,
    reply: EngineReply,
    removing: BuildView,
    kept: AgentView,
    first: StepView,
    meanwhile: AgentView,
    after: BuildView,
    left: AgentView,
    last: StepView,
)
    requires
        reply == EngineReply::Attached(false) || reply == EngineReply::Gathered(false),
        advances(before, registered, reply, removing, kept, first),
        advances(removing, meanwhile, EngineReply::Removed, after, left, last),
    ensures
        first matches StepView::Remove { calls } && is_teardown(
            calls,
            before.stream_id,
            registered_components(registered, before.stream_id),
        ),
        kept == registered,
        last is Failed,
        after.phase == BuildPhase::Done,
        !left.candidate_sinks.contains_key(before.stream_id),
        forall|component_id: u32| !left.state_sinks.contains_key((before.stream_id, component_id)),
{
}

} // verus!
