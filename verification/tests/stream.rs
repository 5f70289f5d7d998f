use futures::channel::mpsc::TryRecvError;
use libnice::ice::{
    Address, Agent, BuildStep, Candidate, CandidateType, ComponentState, ControlMsg, EngineReply,
    Stream, TcpType, Transport,
};

fn stream_of(agent: &mut Agent, components: usize, stream_id: u32) -> Stream {
    let builder = agent.stream_builder(components);
    let (mut build, mut step) = builder.build();
    loop {
        let reply = match step {
            BuildStep::AddStream { .. } => EngineReply::StreamAdded(Some(stream_id)),
            BuildStep::LocalCredentials { .. } => {
                EngineReply::Credentials(String::from("local-ufrag"), String::from("local-pwd"))
            }
            BuildStep::AttachRecv { .. } => EngineReply::Attached(true),
            BuildStep::Gather { .. } => EngineReply::Gathered(true),
            BuildStep::Built(stream) => return stream,
            _ => panic!("nothing was refused"),
        };
        step = build.advance(agent, reply);
    }
}

fn relayed_candidate(component: u32) -> Candidate {
    Candidate {
        foundation: String::from("4"),
        component,
        transport: Transport::Tcp,
        priority: 1010828030,
        address: Address::V6(1),
        port: 9,
        c_type: CandidateType::Relay,
        raddr: Some(Address::Fqdn(String::from("relay.example"))),
        rport: Some(3478),
        tcp_type: Some(TcpType::Active),
        generation: Some(0),
        ufrag: Some(String::from("frag")),
        networkcost: Some(10),
        unknown_extensions: vec![(String::from("extension"), String::from("value"))],
    }
}

#[test]
fn a_stream_knows_its_credentials() {
    let mut agent = Agent::new_rfc5245();
    let stream = stream_of(&mut agent, 1, 3);
    assert_eq!(stream.id(), 3);
    assert_eq!(stream.get_local_ufrag(), "local-ufrag");
    assert_eq!(stream.get_local_pwd(), "local-pwd");
}

#[test]
fn remote_credentials_are_queued_for_the_agent() {
    let mut agent = Agent::new_rfc5245();
    let mut stream = stream_of(&mut agent, 1, 3);
    stream.set_remote_credentials(b"remote-ufrag".to_vec(), b"remote-pwd".to_vec());
    assert_eq!(
        agent.msgs_mut().try_recv(),
        Ok(ControlMsg::SetRemoteCredentials(
            3,
            b"remote-ufrag".to_vec(),
            b"remote-pwd".to_vec()
        ))
    );
    assert_eq!(agent.msgs_mut().try_recv(), Err(TryRecvError::Empty));
}

#[test]
fn a_stream_accepts_candidates_of_its_components_only() {
    let mut agent = Agent::new_rfc5245();
    let stream = stream_of(&mut agent, 2, 3);
    assert!(!stream.accepts(&relayed_candidate(0)));
    assert!(stream.accepts(&relayed_candidate(1)));
    assert!(stream.accepts(&relayed_candidate(2)));
    assert!(!stream.accepts(&relayed_candidate(3)));
    assert!(!stream.accepts(&relayed_candidate(u32::MAX)));
    assert_eq!(agent.msgs_mut().try_recv(), Err(TryRecvError::Empty));
}

#[test]
fn a_stream_without_components_accepts_no_candidate() {
    let mut agent = Agent::new_rfc5245();
    let stream = stream_of(&mut agent, 0, 3);
    assert!(!stream.accepts(&relayed_candidate(0)));
    assert!(!stream.accepts(&relayed_candidate(1)));
}

#[test]
fn a_remote_candidate_goes_to_the_component_it_names() {
    let mut agent = Agent::new_rfc5245();
    let mut stream = stream_of(&mut agent, 2, 3);
    assert!(stream.accepts(&relayed_candidate(2)));
    stream.add_remote_candidate(relayed_candidate(2));
    assert_eq!(
        agent.msgs_mut().try_recv(),
        Ok(ControlMsg::AddRemoteCandidate((3, 2), relayed_candidate(2)))
    );
    assert_eq!(agent.msgs_mut().try_recv(), Err(TryRecvError::Empty));
}

#[test]
fn a_component_adds_candidates_to_itself() {
    let mut agent = Agent::new_rfc5245();
    let mut stream = stream_of(&mut agent, 2, 3);
    stream.mut_components()[0].add_remote_candidate(relayed_candidate(2));
    assert_eq!(
        agent.msgs_mut().try_recv(),
        Ok(ControlMsg::AddRemoteCandidate((3, 1), relayed_candidate(2)))
    );
}

#[test]
fn a_component_queues_what_it_sends() {
    let mut agent = Agent::new_rfc5245();
    let mut stream = stream_of(&mut agent, 2, 3);
    stream.mut_components()[1].unbounded_send(vec![1, 2, 3, 4]);
    stream.mut_components()[0].unbounded_send(vec![42]);
    assert_eq!(agent.msgs_mut().try_recv(), Ok(ControlMsg::Send((3, 2), vec![1, 2, 3, 4])));
    assert_eq!(agent.msgs_mut().try_recv(), Ok(ControlMsg::Send((3, 1), vec![42])));
    assert_eq!(agent.msgs_mut().try_recv(), Err(TryRecvError::Empty));
}

#[test]
fn sending_goes_on_after_the_agent_is_gone() {
    let mut agent = Agent::new_rfc5245();
    let mut stream = stream_of(&mut agent, 1, 3);
    drop(agent);
    stream.mut_components()[0].unbounded_send(vec![1]);
    stream.set_remote_credentials(Vec::new(), Vec::new());
    stream.release();
    assert_eq!(stream.components().len(), 1);
}

#[test]
fn components_are_taken_once() {
    let mut agent = Agent::new_rfc5245();
    let mut stream = stream_of(&mut agent, 3, 3);
    assert_eq!(stream.components().len(), 3);
    let first = stream.take_components();
    assert_eq!(first.len(), 3);
    for (index, component) in first.iter().enumerate() {
        assert_eq!(component.stream_id(), 3);
        assert_eq!(component.component_id(), index as u32 + 1);
    }
    let second = stream.take_components();
    assert!(second.is_empty());
    assert!(stream.components().is_empty());
    assert!(stream.mut_components().is_empty());
    assert_eq!(stream.id(), 3);
    assert_eq!(stream.get_local_ufrag(), "local-ufrag");
}

#[test]
fn components_in_place_keep_their_state() {
    let mut agent = Agent::new_rfc5245();
    let mut stream = stream_of(&mut agent, 2, 3);
    let _ = stream.mut_components()[1]
        .poll_state(libnice::ice::Progress::Ready(Some(ComponentState::Connecting)));
    assert_eq!(stream.components()[0].get_state(), ComponentState::Disconnected);
    assert_eq!(stream.components()[1].get_state(), ComponentState::Connecting);
}

#[test]
fn the_candidates_of_a_stream_end_when_gathering_is_done() {
    let mut agent = Agent::new_rfc5245();
    let mut stream = stream_of(&mut agent, 1, 3);
    assert!(agent.on_new_candidate(3, relayed_candidate(1)));
    assert_eq!(stream.candidates_mut().try_recv(), Ok(relayed_candidate(1)));
    assert_eq!(stream.candidates_mut().try_recv(), Err(TryRecvError::Empty));
    agent.on_candidate_gathering_done(3);
    assert_eq!(stream.candidates_mut().try_recv(), Err(TryRecvError::Closed));
}
