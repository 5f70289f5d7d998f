use futures::channel::mpsc;
use futures::channel::mpsc::TryRecvError;
use libnice::channel::{Feed, Outbox};
use libnice::ice::{
    ComponentState, ControlMsg, Inbound, PacketHook, Progress, StreamComponent,
};

fn wired_component(
    stream_id: u32,
    component_id: u32,
    room: usize,
) -> (StreamComponent, PacketHook, mpsc::UnboundedReceiver<ControlMsg>) {
    let (_state_sender, state_stream) = mpsc::channel(8);
    let (feed, source) = Feed::open(room);
    let (sink, control) = Outbox::open();
    (
        StreamComponent::new(stream_id, component_id, state_stream, source, sink),
        PacketHook::new(feed),
        control,
    )
}

#[test]
fn packets_come_from_the_source_while_the_component_stands() {
    let (mut component, _hook, _control) = wired_component(1, 1, 4);
    assert_eq!(component.poll_next(Progress::Ready(Some(ComponentState::Connected))), None);
    assert_eq!(component.get_state(), ComponentState::Connected);
    assert_eq!(component.poll_next(Progress::Pending), Some(Inbound::Source));
    assert_eq!(component.get_state(), ComponentState::Connected);
}

#[test]
fn packets_end_when_the_states_end() {
    let (mut component, mut hook, _control) = wired_component(1, 1, 4);
    hook.deliver(vec![1]);
    assert_eq!(component.poll_next(Progress::Ready(None)), Some(Inbound::Ended));
    assert_eq!(component.get_state(), ComponentState::Disconnected);
}

#[test]
fn the_hook_feeds_the_component_in_order() {
    let (mut component, mut hook, _control) = wired_component(1, 1, 4);
    hook.deliver(vec![1, 2, 3, 4]);
    hook.deliver(Vec::new());
    hook.deliver(vec![42]);
    assert_eq!(component.source_mut().try_recv(), Ok(vec![1, 2, 3, 4]));
    assert_eq!(component.source_mut().try_recv(), Ok(Vec::new()));
    assert_eq!(component.source_mut().try_recv(), Ok(vec![42]));
    assert_eq!(component.source_mut().try_recv(), Err(TryRecvError::Empty));
}

#[test]
fn the_hook_drops_packets_that_find_no_room() {
    let (mut component, mut hook, _control) = wired_component(1, 1, 0);
    hook.deliver(vec![1]);
    hook.deliver(vec![2]);
    hook.deliver(vec![3]);
    assert_eq!(component.source_mut().try_recv(), Ok(vec![1]));
    assert_eq!(component.source_mut().try_recv(), Err(TryRecvError::Empty));
    hook.deliver(vec![4]);
    assert_eq!(component.source_mut().try_recv(), Ok(vec![4]));
}

#[test]
fn the_hook_outlives_its_component() {
    let (component, mut hook, _control) = wired_component(1, 1, 4);
    drop(component);
    hook.deliver(vec![1]);
    hook.deliver(vec![2]);
}

#[test]
fn a_packet_is_read_from_its_start() {
    let mut buf = [9u8; 6];
    let read = StreamComponent::poll_read(Progress::Ready(Some(vec![1, 2, 3, 4])), &mut buf);
    assert_eq!(read, Progress::Ready(4));
    assert_eq!(buf, [1, 2, 3, 4, 9, 9]);
}

#[test]
fn a_packet_that_fills_the_buffer_is_read_whole() {
    let mut buf = [9u8; 3];
    let read = StreamComponent::poll_read(Progress::Ready(Some(vec![1, 2, 3])), &mut buf);
    assert_eq!(read, Progress::Ready(3));
    assert_eq!(buf, [1, 2, 3]);
}

#[test]
fn a_packet_that_does_not_fit_is_cut() {
    let mut buf = [9u8; 2];
    let read = StreamComponent::poll_read(Progress::Ready(Some(vec![1, 2, 3, 4])), &mut buf);
    assert_eq!(read, Progress::Ready(2));
    assert_eq!(buf, [1, 2]);
    let mut none = [0u8; 0];
    let read = StreamComponent::poll_read(Progress::Ready(Some(vec![1])), &mut none);
    assert_eq!(read, Progress::Ready(0));
}

#[test]
fn an_empty_packet_reads_as_nothing() {
    let mut buf = [9u8; 2];
    let read = StreamComponent::poll_read(Progress::Ready(Some(Vec::new())), &mut buf);
    assert_eq!(read, Progress::Ready(0));
    assert_eq!(buf, [9, 9]);
}

#[test]
fn the_end_of_the_packets_reads_as_nothing() {
    let mut buf = [9u8; 2];
    assert_eq!(StreamComponent::poll_read(Progress::Ready(None), &mut buf), Progress::Ready(0));
    assert_eq!(buf, [9, 9]);
    assert_eq!(StreamComponent::poll_read(Progress::Pending, &mut buf), Progress::Pending);
    assert_eq!(buf, [9, 9]);
}

#[test]
fn written_bytes_are_sent_as_one_packet() {
    let (mut component, _hook, mut control) = wired_component(5, 2, 4);
    assert_eq!(component.poll_write(&[1, 2, 3, 4]), 4);
    assert_eq!(component.poll_write(&[]), 0);
    assert_eq!(control.try_recv(), Ok(ControlMsg::Send((5, 2), vec![1, 2, 3, 4])));
    assert_eq!(control.try_recv(), Ok(ControlMsg::Send((5, 2), Vec::new())));
    assert_eq!(control.try_recv(), Err(TryRecvError::Empty));
}
