use op_net::discovery::DISCOVERY_PEER_CHANNEL_SIZE;
use op_net::event_loop::{DriverLoop, LoopAction, LoopEvent};
use op_net::identity::build_identity;
use op_net::task::{DiscoveryAction, DiscoveryEvent, DiscoveryTask, Phase};
use op_net::types::{NetworkAddress, Peer, Record};
use tokio::sync::mpsc::channel;
use tokio::sync::mpsc::error::TrySendError;

fn record(n: u16, chain_id: u64) -> Record {
    let mut node_id = [0u8; 32];
    node_id[30] = (n >> 8) as u8;
    node_id[31] = n as u8;
    Record {
        node_id,
        ip4: Some([172, 16, (n >> 8) as u8, n as u8]),
        tcp4: Some(9222),
        identity: Some(build_identity(chain_id, 0)),
    }
}

fn peer(n: u16) -> Peer {
    let mut id = [0u8; 32];
    id[30] = (n >> 8) as u8;
    id[31] = n as u8;
    Peer {
        id,
        addresses: vec![NetworkAddress { ip: [172, 16, (n >> 8) as u8, n as u8], port: 9222 }],
    }
}

fn searching(chain_id: u64) -> DiscoveryTask {
    let mut task = DiscoveryTask::new(chain_id);
    task.step(DiscoveryEvent::Spawned);
    task.step(DiscoveryEvent::Started(true));
    task
}

#[derive(Debug, PartialEq, Eq)]
enum Call {
    Dial(Option<Peer>),
    Forward(Peer),
    Handle(u32),
}

fn run(events: Vec<LoopEvent<u32>>) -> (Vec<Call>, DriverLoop) {
    let mut event_loop = DriverLoop::spawn(true).unwrap();
    let mut calls = Vec::new();
    for event in events {
        match event_loop.step(event) {
            LoopAction::DialAndForward(peer) => {
                calls.push(Call::Dial(Some(peer.clone())));
                calls.push(Call::Forward(peer));
            }
            LoopAction::FinalDial => calls.push(Call::Dial(None)),
            LoopAction::Handle(event) => calls.push(Call::Handle(event)),
            LoopAction::Continue => {}
            LoopAction::Halt => {}
        }
    }
    (calls, event_loop)
}

#[test]
fn fixed_record_set_reaches_the_channel() {
    let (sender, mut recv) = channel::<Peer>(DISCOVERY_PEER_CHANNEL_SIZE);
    let mut task = searching(10);
    let mut action = task.step(DiscoveryEvent::Found(vec![record(1, 10), record(2, 1)]));
    while let DiscoveryAction::Send(found) = action {
        action = task.step(DiscoveryEvent::Sent(sender.try_send(found).is_ok()));
    }
    assert_eq!(action, DiscoveryAction::Sleep(10));
    assert_eq!(recv.try_recv().ok(), Some(peer(1)));
    assert!(recv.try_recv().is_err());
}

#[test]
fn bounded_channel_holds_256_peers_while_the_task_waits() {
    let (sender, mut recv) = channel::<Peer>(DISCOVERY_PEER_CHANNEL_SIZE);
    let records: Vec<Record> = (1..=300).map(|n| record(n, 10)).collect();
    let mut task = searching(10);
    let mut action = task.step(DiscoveryEvent::Found(records));
    let mut enqueued = 0;
    let held = loop {
        match action {
            DiscoveryAction::Send(found) => match sender.try_send(found) {
                Ok(()) => {
                    enqueued += 1;
                    action = task.step(DiscoveryEvent::Sent(true));
                }
                Err(TrySendError::Full(held)) => break held,
                Err(TrySendError::Closed(_)) => panic!("the receiver is alive"),
            },
            other => panic!("unexpected action {:?}", other),
        }
    };
    assert_eq!(enqueued, 256);
    assert_eq!(held, peer(257));
    assert_eq!(task.phase(), Phase::Publishing);
    assert_eq!(task.backlog(), 300 - 257);
    assert_eq!(task.step(DiscoveryEvent::Woke), DiscoveryAction::Wait);
    assert_eq!(recv.try_recv().ok(), Some(peer(1)));
    assert!(sender.try_send(held).is_ok());
    assert_eq!(task.step(DiscoveryEvent::Sent(true)), DiscoveryAction::Send(peer(258)));
    assert_eq!(recv.try_recv().ok(), Some(peer(2)));
}

#[test]
fn dropped_receiver_ends_the_task() {
    let (sender, recv) = channel::<Peer>(DISCOVERY_PEER_CHANNEL_SIZE);
    drop(recv);
    let mut task = searching(10);
    let mut action = task.step(DiscoveryEvent::Found(vec![record(1, 10), record(2, 10)]));
    let mut sends = 0;
    while let DiscoveryAction::Send(found) = action {
        sends += 1;
        action = task.step(DiscoveryEvent::Sent(sender.try_send(found).is_ok()));
    }
    assert_eq!(sends, 1);
    assert_eq!(action, DiscoveryAction::Stop);
    assert!(task.is_stopped());
}

#[test]
fn closing_discovery_gives_one_sentinel_dial_and_nothing_after() {
    let (calls, event_loop) = run(vec![
        LoopEvent::Transport(1),
        LoopEvent::Discovery(Some(peer(5))),
        LoopEvent::Transport(2),
        LoopEvent::Discovery(None),
        LoopEvent::Transport(3),
        LoopEvent::Discovery(Some(peer(6))),
        LoopEvent::Discovery(None),
    ]);
    assert_eq!(
        calls,
        vec![
            Call::Handle(1),
            Call::Dial(Some(peer(5))),
            Call::Forward(peer(5)),
            Call::Handle(2),
            Call::Dial(None),
        ]
    );
    assert!(event_loop.is_terminated());
}

#[test]
fn peers_are_forwarded_in_the_order_they_arrive() {
    let (calls, event_loop) = run(vec![
        LoopEvent::Discovery(Some(peer(9))),
        LoopEvent::Discovery(Some(peer(3))),
        LoopEvent::ForwardFailed,
        LoopEvent::Discovery(Some(peer(7))),
    ]);
    let forwarded: Vec<&Call> =
        calls.iter().filter(|call| matches!(call, Call::Forward(_))).collect();
    assert_eq!(
        forwarded,
        vec![&Call::Forward(peer(9)), &Call::Forward(peer(3)), &Call::Forward(peer(7))]
    );
    assert!(!event_loop.is_terminated());
}
