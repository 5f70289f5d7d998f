use futures::channel::mpsc;
use futures::channel::mpsc::TryRecvError;
use libnice::channel::{Feed, Outbox};
use libnice::ice::{
    Address, Agent, Candidate, CandidateType, Compatibility, ComponentState, ControlMsg, Drive,
    EngineCall, Offer, Progress, Transport,
};
use libnice::message::holds_terminator;

fn host_candidate(component: u32, port: u32) -> Candidate {
    Candidate {
        foundation: String::from("1"),
        component,
        transport: Transport::Udp,
        priority: 2013266431,
        address: Address::V4(0x7F000001),
        port,
        c_type: CandidateType::Host,
        raddr: None,
        rport: None,
        tcp_type: None,
        generation: None,
        ufrag: None,
        networkcost: None,
        unknown_extensions: Vec::new(),
    }
}

fn register_state(agent: &mut Agent, stream_id: u32, component_id: u32) -> mpsc::Receiver<ComponentState> {
    let (feed, receiver) = Feed::open(8);
    agent.register_state_sink((stream_id, component_id), feed);
    receiver
}

fn register_candidates(agent: &mut Agent, stream_id: u32) -> mpsc::UnboundedReceiver<Candidate> {
    let (sink, receiver) = Outbox::open();
    agent.register_candidate_sink(stream_id, sink);
    receiver
}

fn detached(calls: &[EngineCall], stream_id: u32) -> Vec<u32> {
    let mut components = Vec::new();
    for call in calls {
        match call {
            EngineCall::DetachRecv { stream_id: stream, component_id } => {
                assert_eq!(*stream, stream_id);
                components.push(*component_id);
            }
            _ => panic!("only hooks are detached before the stream is removed"),
        }
    }
    components.sort();
    components
}

#[test]
fn a_new_agent_has_nothing_registered() {
    let agent = Agent::new_rfc5245();
    assert_eq!(agent.compatibility(), Compatibility::Rfc5245);
    assert_eq!(agent.options(), 0);
    assert!(!agent.has_candidate_sink(1));
    assert!(!agent.has_state_sink((1, 1)));
}

#[test]
fn an_agent_keeps_its_dialect_and_options() {
    let agent = Agent::new(Compatibility::Google);
    assert_eq!(agent.compatibility(), Compatibility::Google);
    assert_eq!(agent.options(), 0);
    let agent = Agent::new_full(Compatibility::Oc2007R2, 5);
    assert_eq!(agent.compatibility(), Compatibility::Oc2007R2);
    assert_eq!(agent.options(), 5);
}

#[test]
fn configuration_becomes_engine_calls() {
    let mut agent = Agent::new_rfc5245();
    assert!(!holds_terminator("bridge"));
    assert_eq!(
        agent.set_software(String::from("bridge")),
        EngineCall::SetSoftware { name: String::from("bridge") }
    );
    assert_eq!(
        agent.set_controlling_mode(true),
        EngineCall::SetControllingMode { controlling: true }
    );
    assert_eq!(
        agent.set_controlling_mode(false),
        EngineCall::SetControllingMode { controlling: false }
    );
}

#[test]
fn a_name_with_a_terminator_is_found() {
    assert!(holds_terminator("bri\0dge"));
    assert!(holds_terminator("\0"));
    assert!(holds_terminator("bridge\0"));
    assert!(!holds_terminator(""));
    assert!(!holds_terminator("br\u{100}dge0"));
}

#[test]
fn state_keys_tell_streams_and_components_apart() {
    let mut agent = Agent::new_rfc5245();
    let _first = register_state(&mut agent, 1, 2);
    assert!(agent.has_state_sink((1, 2)));
    assert!(!agent.has_state_sink((2, 1)));
    assert!(!agent.has_state_sink((1, 1)));
    assert!(!agent.has_state_sink((0, 2)));
    let _second = register_state(&mut agent, u32::MAX, u32::MAX);
    assert!(agent.has_state_sink((u32::MAX, u32::MAX)));
    assert!(!agent.has_state_sink((u32::MAX, 0)));
    assert!(!agent.has_state_sink((0, u32::MAX)));
}

#[test]
fn candidates_reach_the_consumer_of_their_stream() {
    let mut agent = Agent::new_rfc5245();
    let mut first = register_candidates(&mut agent, 1);
    let mut second = register_candidates(&mut agent, 2);
    assert!(agent.on_new_candidate(1, host_candidate(1, 5000)));
    assert!(agent.on_new_candidate(2, host_candidate(1, 6000)));
    assert!(agent.on_new_candidate(1, host_candidate(2, 5001)));
    assert_eq!(first.try_recv(), Ok(host_candidate(1, 5000)));
    assert_eq!(first.try_recv(), Ok(host_candidate(2, 5001)));
    assert_eq!(first.try_recv(), Err(TryRecvError::Empty));
    assert_eq!(second.try_recv(), Ok(host_candidate(1, 6000)));
    assert_eq!(second.try_recv(), Err(TryRecvError::Empty));
}

#[test]
fn gathering_done_ends_the_candidates() {
    let mut agent = Agent::new_rfc5245();
    let mut candidates = register_candidates(&mut agent, 4);
    assert!(agent.on_new_candidate(4, host_candidate(1, 5000)));
    agent.on_candidate_gathering_done(4);
    assert!(!agent.has_candidate_sink(4));
    assert_eq!(candidates.try_recv(), Ok(host_candidate(1, 5000)));
    assert_eq!(candidates.try_recv(), Err(TryRecvError::Closed));
}

#[test]
fn a_candidate_for_a_consumer_that_is_gone_unregisters_it() {
    let mut agent = Agent::new_rfc5245();
    let candidates = register_candidates(&mut agent, 4);
    let _other = register_candidates(&mut agent, 5);
    drop(candidates);
    assert!(!agent.on_new_candidate(4, host_candidate(1, 5000)));
    assert!(!agent.has_candidate_sink(4));
    assert!(agent.has_candidate_sink(5));
}

#[test]
fn state_changes_reach_the_consumer_of_their_component() {
    let mut agent = Agent::new_rfc5245();
    let mut first = register_state(&mut agent, 1, 1);
    let mut second = register_state(&mut agent, 1, 2);
    assert_eq!(
        agent.on_component_state_changed(1, 1, ComponentState::Gathering),
        Offer::Accepted
    );
    assert_eq!(
        agent.on_component_state_changed(1, 2, ComponentState::Connecting),
        Offer::Accepted
    );
    assert_eq!(
        agent.on_component_state_changed(1, 1, ComponentState::Connected),
        Offer::Accepted
    );
    assert_eq!(first.try_recv(), Ok(ComponentState::Gathering));
    assert_eq!(first.try_recv(), Ok(ComponentState::Connected));
    assert_eq!(first.try_recv(), Err(TryRecvError::Empty));
    assert_eq!(second.try_recv(), Ok(ComponentState::Connecting));
    assert_eq!(second.try_recv(), Err(TryRecvError::Empty));
    assert!(agent.has_state_sink((1, 1)));
    assert!(agent.has_state_sink((1, 2)));
}

#[test]
fn a_state_change_for_a_consumer_that_is_gone_unregisters_it() {
    let mut agent = Agent::new_rfc5245();
    let first = register_state(&mut agent, 1, 1);
    let _second = register_state(&mut agent, 1, 2);
    drop(first);
    assert_eq!(
        agent.on_component_state_changed(1, 1, ComponentState::Gathering),
        Offer::Disconnected
    );
    assert!(!agent.has_state_sink((1, 1)));
    assert!(agent.has_state_sink((1, 2)));
}

#[test]
fn a_state_change_that_finds_no_room_is_dropped() {
    let mut agent = Agent::new_rfc5245();
    let mut states = register_state(&mut agent, 1, 1);
    let mut accepted = 0;
    let mut full = 0;
    for _ in 0..12 {
        match agent.on_component_state_changed(1, 1, ComponentState::Connecting) {
            Offer::Accepted => accepted += 1,
            Offer::Full => full += 1,
            Offer::Disconnected => panic!("the consumer is there"),
        }
    }
    assert_eq!(accepted, 9);
    assert_eq!(full, 3);
    assert!(agent.has_state_sink((1, 1)));
    for _ in 0..9 {
        assert_eq!(states.try_recv(), Ok(ComponentState::Connecting));
    }
    assert_eq!(states.try_recv(), Err(TryRecvError::Empty));
}

#[test]
fn messages_become_engine_calls() {
    let agent = Agent::new_rfc5245();
    assert_eq!(
        agent.handle_msg(ControlMsg::SetRemoteCredentials(3, b"frag".to_vec(), b"word".to_vec())),
        vec![EngineCall::SetRemoteCredentials {
            stream_id: 3,
            ufrag: b"frag".to_vec(),
            pwd: b"word".to_vec()
        }]
    );
    assert_eq!(
        agent.handle_msg(ControlMsg::AddRemoteCandidate((3, 2), host_candidate(2, 5000))),
        vec![EngineCall::AddRemoteCandidates {
            stream_id: 3,
            component_id: 2,
            candidate: host_candidate(2, 5000)
        }]
    );
    assert_eq!(
        agent.handle_msg(ControlMsg::Send((3, 1), vec![1, 2, 3, 4])),
        vec![EngineCall::Send { stream_id: 3, component_id: 1, payload: vec![1, 2, 3, 4] }]
    );
}

#[test]
fn a_message_for_an_unknown_stream_still_becomes_a_call() {
    let agent = Agent::new_rfc5245();
    assert_eq!(
        agent.handle_msg(ControlMsg::Send((9, 9), vec![0])),
        vec![EngineCall::Send { stream_id: 9, component_id: 9, payload: vec![0] }]
    );
    assert_eq!(
        agent.handle_msg(ControlMsg::DropStream(9)),
        vec![EngineCall::RemoveStream { stream_id: 9 }]
    );
}

#[test]
fn dropping_a_stream_detaches_its_components_and_removes_it() {
    let mut agent = Agent::new_rfc5245();
    let _a = register_state(&mut agent, 1, 1);
    let _b = register_state(&mut agent, 1, 2);
    let _c = register_state(&mut agent, 1, 3);
    let _d = register_state(&mut agent, 2, 1);
    let _e = register_candidates(&mut agent, 1);
    let calls = agent.handle_msg(ControlMsg::DropStream(1));
    assert_eq!(calls.len(), 4);
    assert_eq!(calls[3], EngineCall::RemoveStream { stream_id: 1 });
    assert_eq!(detached(&calls[..3], 1), vec![1, 2, 3]);
    assert!(agent.has_state_sink((1, 1)));
    assert!(agent.has_state_sink((1, 2)));
    assert!(agent.has_state_sink((1, 3)));
    assert!(agent.has_candidate_sink(1));
}

#[test]
fn a_removed_stream_is_forgotten() {
    let mut agent = Agent::new_rfc5245();
    let mut a = register_state(&mut agent, 1, 1);
    let _b = register_state(&mut agent, 1, 2);
    let _d = register_state(&mut agent, 2, 1);
    let mut candidates = register_candidates(&mut agent, 1);
    let _others = register_candidates(&mut agent, 2);
    agent.remove_stream_internal(1);
    assert!(!agent.has_state_sink((1, 1)));
    assert!(!agent.has_state_sink((1, 2)));
    assert!(agent.has_state_sink((2, 1)));
    assert!(!agent.has_candidate_sink(1));
    assert!(agent.has_candidate_sink(2));
    assert_eq!(a.try_recv(), Err(TryRecvError::Closed));
    assert_eq!(candidates.try_recv(), Err(TryRecvError::Closed));
}

#[test]
fn removing_a_stream_twice_changes_nothing_more() {
    let mut agent = Agent::new_rfc5245();
    let _a = register_state(&mut agent, 1, 1);
    let _d = register_state(&mut agent, 2, 1);
    agent.remove_stream_internal(1);
    agent.remove_stream_internal(1);
    assert!(!agent.has_state_sink((1, 1)));
    assert!(agent.has_state_sink((2, 1)));
    assert_eq!(
        agent.removal_calls(1),
        vec![EngineCall::RemoveStream { stream_id: 1 }]
    );
}

#[test]
fn shutdown_says_disconnected_once_and_closes() {
    let mut agent = Agent::new_rfc5245();
    let mut first = register_state(&mut agent, 1, 1);
    let mut second = register_state(&mut agent, 1, 2);
    let mut third = register_state(&mut agent, 2, 1);
    assert_eq!(
        agent.on_component_state_changed(1, 2, ComponentState::Connected),
        Offer::Accepted
    );
    agent.shutdown();
    assert_eq!(first.try_recv(), Ok(ComponentState::Disconnected));
    assert_eq!(first.try_recv(), Err(TryRecvError::Closed));
    assert_eq!(second.try_recv(), Ok(ComponentState::Connected));
    assert_eq!(second.try_recv(), Ok(ComponentState::Disconnected));
    assert_eq!(second.try_recv(), Err(TryRecvError::Closed));
    assert_eq!(third.try_recv(), Ok(ComponentState::Disconnected));
    assert_eq!(third.try_recv(), Err(TryRecvError::Closed));
}

#[test]
fn shutdown_leaves_the_candidates_open() {
    let mut agent = Agent::new_rfc5245();
    let mut candidates = register_candidates(&mut agent, 1);
    let _states = register_state(&mut agent, 1, 1);
    agent.shutdown();
    assert!(agent.has_candidate_sink(1));
    assert_eq!(candidates.try_recv(), Err(TryRecvError::Empty));
}

#[test]
fn driving_applies_one_message_at_a_time() {
    let mut agent = Agent::new_rfc5245();
    let mut sender = agent.control_sender();
    assert!(sender.post(ControlMsg::Send((1, 1), vec![7])));
    assert!(sender.post(ControlMsg::DropStream(1)));
    let first = match agent.msgs_mut().try_recv() {
        Ok(msg) => agent.poll(Progress::Ready(Some(msg))),
        Err(_) => panic!("a message is queued"),
    };
    match first {
        Drive::Apply(calls) => assert_eq!(
            calls,
            vec![EngineCall::Send { stream_id: 1, component_id: 1, payload: vec![7] }]
        ),
        Drive::Suspend => panic!("a message is to be applied"),
    }
    let second = match agent.msgs_mut().try_recv() {
        Ok(msg) => agent.poll(Progress::Ready(Some(msg))),
        Err(_) => panic!("a message is queued"),
    };
    match second {
        Drive::Apply(calls) => assert_eq!(calls, vec![EngineCall::RemoveStream { stream_id: 1 }]),
        Drive::Suspend => panic!("a message is to be applied"),
    }
    assert_eq!(agent.msgs_mut().try_recv(), Err(TryRecvError::Empty));
    assert!(matches!(agent.poll(Progress::Pending), Drive::Suspend));
}

#[test]
fn a_stream_is_forgotten_once_the_engine_has_removed_it() {
    let mut agent = Agent::new_rfc5245();
    let _a = register_state(&mut agent, 1, 1);
    let _b = register_state(&mut agent, 2, 1);
    let _c = register_candidates(&mut agent, 1);
    for call in agent.handle_msg(ControlMsg::DropStream(1)) {
        assert!(agent.has_state_sink((1, 1)));
        assert!(agent.has_candidate_sink(1));
        agent.applied(&call);
    }
    assert!(!agent.has_state_sink((1, 1)));
    assert!(!agent.has_candidate_sink(1));
    assert!(agent.has_state_sink((2, 1)));
}

#[test]
fn other_calls_leave_the_registries_alone() {
    let mut agent = Agent::new_rfc5245();
    let _a = register_state(&mut agent, 1, 1);
    let _c = register_candidates(&mut agent, 1);
    agent.applied(&EngineCall::DetachRecv { stream_id: 1, component_id: 1 });
    agent.applied(&EngineCall::Send { stream_id: 1, component_id: 1, payload: vec![1] });
    agent.applied(&EngineCall::SetControllingMode { controlling: true });
    agent.applied(&EngineCall::RemoveStream { stream_id: 2 });
    assert!(agent.has_state_sink((1, 1)));
    assert!(agent.has_candidate_sink(1));
}
