use forest_network::coordinator::{
    Action, LoopInput, NetRPCMethods, NetworkEvent, NetworkMessage, RunLoop, SwarmEvent,
};

type Input = LoopInput<u32, &'static str, u64, u64>;

fn query(slot: u64) -> Input {
    LoopInput::Command(Some(NetworkMessage::JSONRPCRequest {
        method: NetRPCMethods::NetAddrsListen(slot),
    }))
}

#[test]
fn swarm_events_are_forwarded() {
    let mut l = RunLoop::new();
    let a = l.handle::<u32, &str, u64, u64>(LoopInput::Swarm(Some(SwarmEvent::PeerConnected(7))));
    assert!(matches!(a, Action::Emit(NetworkEvent::PeerConnected(7))));
    let a = l.handle::<u32, &str, u64, u64>(LoopInput::Swarm(Some(SwarmEvent::PeerDisconnected(8))));
    assert!(matches!(a, Action::Emit(NetworkEvent::PeerDisconnected(8))));
    let a = l.handle::<u32, &str, u64, u64>(LoopInput::Swarm(Some(SwarmEvent::HelloRequest {
        request: "hi",
        peer: 9,
    })));
    assert!(matches!(a, Action::Emit(NetworkEvent::HelloRequest { request: "hi", source: 9 })));
    assert!(!l.is_stopped());
}

#[test]
fn outbound_request_goes_to_swarm() {
    let mut l = RunLoop::new();
    let a = l.handle::<u32, &str, u64, u64>(LoopInput::Command(Some(NetworkMessage::HelloRequest {
        peer_id: 3,
        request: "hello",
        response_channel: 42,
    })));
    assert!(matches!(
        a,
        Action::SendHello { peer_id: 3, request: "hello", response_channel: 42 }
    ));
}

#[test]
fn every_query_answered_once() {
    let mut l = RunLoop::new();
    let n = 50u64;
    let mut replied = Vec::new();
    for i in 0..n {
        if i % 3 == 0 {
            let a = l.handle::<u32, &str, u64, u64>(LoopInput::Swarm(Some(SwarmEvent::PeerConnected(i as u32))));
            assert!(matches!(a, Action::Emit(_)));
        }
        match l.handle(query(i)) {
            Action::ReplyListeners(s) => replied.push(s),
            other => panic!("unexpected {:?}", other),
        }
    }
    assert_eq!(replied, (0..n).collect::<Vec<u64>>());
}

#[test]
fn closed_command_channel_stops() {
    let mut l = RunLoop::new();
    let a = l.handle::<u32, &str, u64, u64>(LoopInput::Command(None));
    assert!(matches!(a, Action::Stop));
    assert!(l.is_stopped());
    assert!(matches!(l.handle(query(1)), Action::Stop));
    let a = l.handle::<u32, &str, u64, u64>(LoopInput::Swarm(Some(SwarmEvent::PeerConnected(1))));
    assert!(matches!(a, Action::Stop));
}

#[test]
fn closed_swarm_stream_stops() {
    let mut l = RunLoop::new();
    let a = l.handle::<u32, &str, u64, u64>(LoopInput::Swarm(None));
    assert!(matches!(a, Action::Stop));
    assert!(l.is_stopped());
}

#[test]
fn events_forwarded_in_order() {
    let mut l = RunLoop::new();
    let inputs: Vec<Input> = vec![
        LoopInput::Swarm(Some(SwarmEvent::PeerConnected(1))),
        query(10),
        LoopInput::Swarm(Some(SwarmEvent::HelloRequest { request: "a", peer: 1 })),
        LoopInput::Swarm(Some(SwarmEvent::PeerDisconnected(1))),
    ];
    let mut emitted = Vec::new();
    for i in inputs {
        if let Action::Emit(e) = l.handle(i) {
            emitted.push(e);
        }
    }
    assert_eq!(emitted.len(), 3);
    assert!(matches!(emitted[0], NetworkEvent::PeerConnected(1)));
    assert!(matches!(emitted[1], NetworkEvent::HelloRequest { request: "a", source: 1 }));
    assert!(matches!(emitted[2], NetworkEvent::PeerDisconnected(1)));
}
