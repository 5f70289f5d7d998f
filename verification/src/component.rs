//! One component of a stream: its packets, its state, and the wait for a state.

use vstd::prelude::*;
use vstd::slice::{slice_to_vec, SliceAdditionalExecFns};
use futures::channel::mpsc::Receiver;
use crate::candidate::Candidate;
use crate::channel::{Feed, FeedView, Outbox, Signal};
use crate::message::ControlMsg;
use crate::state::{news, observe, wait_step, ComponentState, Polled, Progress};

verus! {

/// What is known of a component.
pub struct ComponentView {
    pub stream_id: u32,
    pub component_id: u32,
    /// The state as of the last poll.
    pub state: ComponentState,
    /// The requests that were queued through this component, oldest first.
    pub posted: Seq<ControlMsg>,
}

/// Where the next packet of a component is to come from.
#[derive(Clone, Copy, Debug, PartialEq, Eq, Structural)]
pub enum Inbound {
    /// From nowhere: the component was taken down, and its packets have ended with it.
    Ended,
    /// From the channel of packets, whatever a poll of it finds.
    Source,
}

/// The bytes of `buf` once `packet` is read into it: as much of the packet as fits, then
/// what was there before.
pub open spec fn read_into(packet: Seq<u8>, buf: Seq<u8>) -> Seq<u8> {
    if packet.len() <= buf.len() {
        packet + buf.skip(packet.len() as int)
    } else {
        packet.take(buf.len() as int)
    }
}

/// A single component of an ICE stream.
///
/// Packets and changes of state reach it on two channels whose sending ends the agent's
/// side holds. What it sends, it queues on the agent's control channel.
pub struct StreamComponent {
    stream_id: u32,
    component_id: u32,
    state: ComponentState,
    state_stream: Receiver<ComponentState>,
    source: Receiver<Vec<u8>>,
    sink: Outbox<ControlMsg>,
}

impl View for StreamComponent {
    type V = ComponentView;

    closed spec fn view(&self) -> ComponentView {
        ComponentView {
            stream_id: self.stream_id,
            component_id: self.component_id,
            state: self.state,
            posted: self.sink.posted(),
        }
    }
}

impl StreamComponent {
    /// A component in state `Disconnected` that reads its states from `state_stream` and
    /// its packets from `source`, and queues its requests through `sink`.
    pub fn new(
        stream_id: u32,
        component_id: u32,
        state_stream: Receiver<ComponentState>,
        source: Receiver<Vec<u8>>,
        sink: Outbox<ControlMsg>,
    ) -> (component: StreamComponent)
        ensures
            component@ == (ComponentView {
                stream_id,
                component_id,
                state: ComponentState::Disconnected,
                posted: sink.posted(),
            }),
    {
        StreamComponent {
            stream_id,
            component_id,
            state: ComponentState::Disconnected,
            state_stream,
            source,
            sink,
        }
    }

    /// Adds a remote ICE candidate to this component, whatever component the candidate
    /// itself names.
    pub fn add_remote_candidate(&mut self, candidate: Candidate)
        ensures
            final(self)@ == (ComponentView {
                posted: old(self)@.posted.push(
                    ControlMsg::AddRemoteCandidate(
                        (old(self)@.stream_id, old(self)@.component_id),
                        candidate,
                    ),
                ),
                ..old(self)@
            }),
    {
        let msg = ControlMsg::AddRemoteCandidate((self.stream_id, self.component_id), candidate);
        let _ = self.sink.post(msg);
    }

    /// Sends a packet through this component. The packet is queued for the agent and the
    /// call returns at once; a packet that cannot be sent is dropped without notice.
    pub fn unbounded_send(&mut self, item: Vec<u8>)
        ensures
            final(self)@ == (ComponentView {
                posted: old(self)@.posted.push(
                    ControlMsg::Send((old(self)@.stream_id, old(self)@.component_id), item),
                ),
                ..old(self)@
            }),
    {
        let msg = ControlMsg::Send((self.stream_id, self.component_id), item);
        let _ = self.sink.post(msg);
    }

    /// The state of this component as of the last poll.
    pub fn get_state(&self) -> (state: ComponentState)
        ensures
            state == self@.state,
    {
        self.state
    }

    /// The id of the stream that this component belongs to.
    pub fn stream_id(&self) -> (id: u32)
        ensures
            id == self@.stream_id,
    {
        self.stream_id
    }

    /// The id of this component within its stream, counted from 1.
    pub fn component_id(&self) -> (id: u32)
        ensures
            id == self@.component_id,
    {
        self.component_id
    }

    /// The channel on which changes of state arrive: the component's own receiving end,
    /// lent out. What is done to it is done to the component's, and nothing else of the
    /// component changes.
    pub fn state_stream_mut(&mut self) -> (channel: &mut Receiver<ComponentState>)
        ensures
            *channel == old(self).state_stream(),
            *final(self) == old(self).with_state_stream(*final(channel)),
            final(self).state_stream() == *final(channel),
            final(self).source() == old(self).source(),
            final(self)@ == old(self)@,
    {
        &mut self.state_stream
    }

    /// The channel on which packets arrive: the component's own receiving end, lent out.
    /// What is done to it is done to the component's, and nothing else of the component
    /// changes.
    pub fn source_mut(&mut self) -> (channel: &mut Receiver<Vec<u8>>)
        ensures
            *channel == old(self).source(),
            *final(self) == old(self).with_source(*final(channel)),
            final(self).source() == *final(channel),
            final(self).state_stream() == old(self).state_stream(),
            final(self)@ == old(self)@,
    {
        &mut self.source
    }

    /// The receiving end of the channel of states that the component holds.
    pub closed spec fn state_stream(&self) -> Receiver<ComponentState> {
        self.state_stream
    }

    /// The receiving end of the channel of packets that the component holds.
    pub closed spec fn source(&self) -> Receiver<Vec<u8>> {
        self.source
    }

    /// The component with `channel` as its channel of states, and all else as it is.
    pub closed spec fn with_state_stream(self, channel: Receiver<ComponentState>) -> Self {
        StreamComponent { state_stream: channel, ..self }
    }

    /// The component with `channel` as its channel of packets, and all else as it is.
    pub closed spec fn with_source(self, channel: Receiver<Vec<u8>>) -> Self {
        StreamComponent { source: channel, ..self }
    }

    /// Takes in what one poll of the channel of states found. An update becomes the state
    /// of the component, and the channel is to be polled again: the answer is `None`.
    /// Otherwise the answer says how the poll ends: `Ready` when the channel has ended,
    /// `Pending` when it has run dry.
    pub fn poll_state(&mut self, polled: Polled<ComponentState>) -> (end: Option<Progress<()>>)
        ensures
            final(self)@ == (ComponentView {
                state: observe(old(self)@.state, news(polled)),
                ..old(self)@
            }),
            end == match polled {
                Progress::Ready(Some(_)) => None,
                Progress::Ready(None) => Some(Progress::Ready(())),
                Progress::Pending => Some(Progress::<()>::Pending),
            },
    {
        match polled {
            Progress::Ready(Some(update)) => {
                self.state = update;
                None
            },
            Progress::Ready(None) => Some(Progress::Ready(())),
            Progress::Pending => Some(Progress::Pending),
        }
    }

    /// One step of reading the next packet, on what a poll of the channel of states found.
    /// The states are taken in first, as `poll_state` does, so the answer is `None` while
    /// there are updates. Then the answer says where the packet is to come from.
    pub fn poll_next(&mut self, polled: Polled<ComponentState>) -> (next: Option<Inbound>)
        ensures
            final(self)@ == (ComponentView {
                state: observe(old(self)@.state, news(polled)),
                ..old(self)@
            }),
            next == match polled {
                Progress::Ready(Some(_)) => None,
                Progress::Ready(None) => Some(Inbound::Ended),
                Progress::Pending => Some(Inbound::Source),
            },
    {
        match self.poll_state(polled) {
            None => None,
            Some(Progress::Ready(())) => Some(Inbound::Ended),
            Some(Progress::Pending) => Some(Inbound::Source),
        }
    }

    /// Reads what a poll for the next packet found into `buf` and answers with the number
    /// of bytes read. A packet is read from its start, and what does not fit is dropped
    /// with it. The end of the packets reads as no bytes.
    pub fn poll_read(found: Polled<Vec<u8>>, buf: &mut [u8]) -> (read: Progress<usize>)
        ensures
            match found {
                Progress::Ready(Some(packet)) => {
                    &&& read == Progress::Ready(
                        if packet.len() <= old(buf)@.len() {
                            packet.len()
                        } else {
                            old(buf)@.len() as usize
                        },
                    )
                    &&& final(buf)@ == read_into(packet@, old(buf)@)
                },
                Progress::Ready(None) => read == Progress::Ready(0usize) && final(buf)@ == old(
                    buf,
                )@,
                Progress::Pending => read == Progress::<usize>::Pending && final(buf)@ == old(
                    buf,
                )@,
            },
    {
        match found {
            Progress::Ready(Some(packet)) => {
                let fits: usize = if packet.len() <= buf.len() {
                    packet.len()
                } else {
                    buf.len()
                };
                let mut at: usize = 0;
                while at < fits
                    invariant
                        at <= fits,
                        fits <= packet.len(),
                        fits <= buf@.len(),
                        buf@.len() == old(buf)@.len(),
                        forall|i: int| 0 <= i < at ==> buf@[i] == packet@[i],
                        forall|i: int| at <= i < buf@.len() ==> buf@[i] == old(buf)@[i],
                    decreases fits - at,
                {
                    buf.set(at, packet[at]);
                    at = at + 1;
                }
                assert(buf@ =~= read_into(packet@, old(buf)@));
                Progress::Ready(fits)
            },
            Progress::Ready(None) => Progress::Ready(0),
            Progress::Pending => Progress::Pending,
        }
    }

    /// Sends the bytes of `buf` as one packet, as `unbounded_send` does, and answers with
    /// their number.
    pub fn poll_write(&mut self, buf: &[u8]) -> (written: usize)
        ensures
            written == buf@.len(),
            final(self)@ == (ComponentView { posted: final(self)@.posted, ..old(self)@ }),
            final(self)@.posted.len() == old(self)@.posted.len() + 1,
            final(self)@.posted.drop_last() == old(self)@.posted,
            final(self)@.posted.last() matches ControlMsg::Send(id, payload) && id == (
                old(self)@.stream_id,
                old(self)@.component_id,
            ) && payload@ == buf@,
    {
        let ghost before = self@.posted;
        self.unbounded_send(slice_to_vec(buf));
        assert(self@.posted.drop_last() =~= before);
        buf.len()
    }

    /// A wait for this component to reach `target` or a state past it.
    pub fn wait_for_state(self, target: ComponentState) -> (wait: ComponentStateFuture)
        ensures
            wait.component() == Some(self),
            wait.target() == target,
    {
        ComponentStateFuture { component: Some(self), target }
    }
}

/// The receive hook of a component: what the engine calls with each packet that arrives for
/// it. The packet goes to the component's channel of packets, and is dropped without notice
/// when that channel is full or gone, as packets may be on any path.
pub struct PacketHook {
    feed: Feed<Vec<u8>>,
}

impl View for PacketHook {
    type V = FeedView<Vec<u8>>;

    closed spec fn view(&self) -> FeedView<Vec<u8>> {
        self.feed@
    }
}

impl PacketHook {
    /// A hook that feeds `feed`.
    pub fn new(feed: Feed<Vec<u8>>) -> (hook: PacketHook)
        ensures
            hook@ == feed@,
    {
        PacketHook { feed }
    }

    /// Offers `packet` to the component's channel, without waiting.
    pub fn deliver(&mut self, packet: Vec<u8>)
        ensures
            final(self)@ == (FeedView {
                offered: old(self)@.offered.push(Signal::Item(packet)),
                ..old(self)@
            }),
    {
        let _ = self.feed.offer(packet);
    }
}

/// A wait for a component to reach a state. It holds the component until the wait is over
/// with success, and hands it back then.
pub struct ComponentStateFuture {
    component: Option<StreamComponent>,
    target: ComponentState,
}

impl ComponentStateFuture {
    /// The component that waits, until it has been handed back.
    pub closed spec fn component(&self) -> Option<StreamComponent> {
        self.component
    }

    /// The state that is waited for.
    pub closed spec fn target(&self) -> ComponentState {
        self.target
    }

    /// Whether the component is still held, so that the wait may be polled.
    pub fn is_waiting(&self) -> (held: bool)
        ensures
            held == self.component() is Some,
    {
        self.component.is_some()
    }

    /// The channel on which the changes of state of the waiting component arrive: that
    /// component's own receiving end, lent out. What is done to it is done to the
    /// component's, and nothing else of the wait or of the component changes.
    pub fn state_stream_mut(&mut self) -> (channel: &mut Receiver<ComponentState>)
        requires
            old(self).component() is Some,
        ensures
            *channel == old(self).component()->0.state_stream(),
            final(self).component() == Some(
                old(self).component()->0.with_state_stream(*final(channel)),
            ),
            final(self).component()->0.state_stream() == *final(channel),
            final(self).component()->0.source() == old(self).component()->0.source(),
            final(self).component()->0@ == old(self).component()->0@,
            final(self).target() == old(self).target(),
    {
        self.component.as_mut().unwrap().state_stream_mut()
    }

    /// Takes in what one poll of the component's channel of states found.
    ///
    /// An update becomes the state of the component, and the channel is to be polled
    /// again: the answer is `None`. When the channel has ended the wait is over without
    /// success. When it has run dry, the state decides: the wait is over with the
    /// component when the state has reached the target, over without success when the
    /// state is `Failed`, and pending otherwise.
    pub fn poll(&mut self, polled: Polled<ComponentState>) -> (end: Option<
        Progress<Option<StreamComponent>>,
    >)
        requires
            old(self).component() is Some,
        ensures
            final(self).target() == old(self).target(),
            success(end) == wait_step(
                old(self).component()->0@.state,
                old(self).target(),
                polled,
            ).1,
            match end {
                None => {
                    &&& final(self).component() is Some
                    &&& final(self).component()->0@ == (ComponentView {
                        state: wait_step(
                            old(self).component()->0@.state,
                            old(self).target(),
                            polled,
                        ).0,
                        ..old(self).component()->0@
                    })
                },
                Some(Progress::Ready(Some(component))) => {
                    &&& old(self).component() == Some(component)
                    &&& final(self).component() is None
                },
                Some(_) => final(self).component() == old(self).component(),
            },
    {
        match polled {
            Progress::Ready(Some(update)) => {
                match &mut self.component {
                    Some(component) => {
                        let _ = component.poll_state(Progress::Ready(Some(update)));
                    },
                    None => {},
                }
                None
            },
            Progress::Ready(None) => Some(Progress::Ready(None)),
            Progress::Pending => {
                let state = match &self.component {
                    Some(component) => component.get_state(),
                    None => ComponentState::Failed,
                };
                if state.rate() >= self.target.rate() {
                    if state == ComponentState::Failed {
                        Some(Progress::Ready(None))
                    } else {
                        Some(Progress::Ready(self.component.take()))
                    }
                } else {
                    Some(Progress::Pending)
                }
            },
        }
    }
}

/// Whether a wait is over, and whether with success, as the answer of a poll tells it.
pub open spec fn success(end: Option<Progress<Option<StreamComponent>>>) -> Option<Progress<bool>> {
    match end {
        None => None,
        Some(Progress::Ready(handed)) => Some(Progress::Ready(handed is Some)),
        Some(Progress::Pending) => Some(Progress::Pending),
    }
}

} // verus!
