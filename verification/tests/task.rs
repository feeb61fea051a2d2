use op_net::identity::build_identity;
use op_net::task::{DiscoveryAction, DiscoveryEvent, DiscoveryTask, Phase, LOOKUP_INTERVAL_SECS};
use op_net::types::{NetworkAddress, Peer, Record};

fn record(n: u16, chain_id: u64) -> Record {
    let mut node_id = [0u8; 32];
    node_id[0] = (n >> 8) as u8;
    node_id[1] = n as u8;
    Record {
        node_id,
        ip4: Some([10, 0, (n >> 8) as u8, n as u8]),
        tcp4: Some(n),
        identity: Some(build_identity(chain_id, 0)),
    }
}

fn peer(n: u16) -> Peer {
    let mut id = [0u8; 32];
    id[0] = (n >> 8) as u8;
    id[1] = n as u8;
    Peer { id, addresses: vec![NetworkAddress { ip: [10, 0, (n >> 8) as u8, n as u8], port: n }] }
}

fn searching(chain_id: u64) -> DiscoveryTask {
    let mut task = DiscoveryTask::new(chain_id);
    assert_eq!(task.step(DiscoveryEvent::Spawned), DiscoveryAction::Start);
    assert_eq!(task.step(DiscoveryEvent::Started(true)), DiscoveryAction::Lookup);
    task
}

#[test]
fn interval_is_ten_seconds() {
    assert_eq!(LOOKUP_INTERVAL_SECS, 10);
}

#[test]
fn new_task_waits_to_be_spawned() {
    let mut task = DiscoveryTask::new(10);
    assert_eq!(task.phase(), Phase::Created);
    assert_eq!(task.chain_id(), 10);
    assert_eq!(task.step(DiscoveryEvent::Woke), DiscoveryAction::Wait);
    assert_eq!(task.step(DiscoveryEvent::Started(true)), DiscoveryAction::Wait);
    assert_eq!(task.phase(), Phase::Created);
    assert_eq!(task.step(DiscoveryEvent::Spawned), DiscoveryAction::Start);
    assert_eq!(task.phase(), Phase::Starting);
}

#[test]
fn failure_to_start_ends_the_task() {
    let mut task = DiscoveryTask::new(10);
    task.step(DiscoveryEvent::Spawned);
    assert_eq!(task.step(DiscoveryEvent::Started(false)), DiscoveryAction::Stop);
    assert!(task.is_stopped());
    assert_eq!(task.step(DiscoveryEvent::Woke), DiscoveryAction::Stop);
    assert_eq!(task.step(DiscoveryEvent::Spawned), DiscoveryAction::Stop);
    assert!(task.is_stopped());
}

#[test]
fn failed_lookup_sleeps_and_goes_on() {
    let mut task = searching(10);
    assert_eq!(task.step(DiscoveryEvent::LookupFailed), DiscoveryAction::Sleep(10));
    assert_eq!(task.phase(), Phase::Sleeping);
    assert_eq!(task.step(DiscoveryEvent::Woke), DiscoveryAction::Lookup);
    assert_eq!(task.step(DiscoveryEvent::LookupFailed), DiscoveryAction::Sleep(10));
    assert_eq!(task.step(DiscoveryEvent::Woke), DiscoveryAction::Lookup);
    assert_eq!(task.phase(), Phase::Searching);
}

#[test]
fn empty_lookup_sleeps() {
    let mut task = searching(10);
    assert_eq!(task.step(DiscoveryEvent::Found(Vec::new())), DiscoveryAction::Sleep(10));
    assert_eq!(task.phase(), Phase::Sleeping);
}

#[test]
fn lookup_with_one_valid_and_one_invalid_record_sends_one_peer() {
    let mut task = searching(10);
    let action = task.step(DiscoveryEvent::Found(vec![record(1, 10), record(2, 1)]));
    assert_eq!(action, DiscoveryAction::Send(peer(1)));
    assert_eq!(task.backlog(), 0);
    assert_eq!(task.step(DiscoveryEvent::Sent(true)), DiscoveryAction::Sleep(10));
    assert_eq!(task.phase(), Phase::Sleeping);
}

#[test]
fn lookup_with_only_invalid_records_sends_nothing() {
    let mut task = searching(10);
    let mut no_identity = record(3, 10);
    no_identity.identity = None;
    let action = task.step(DiscoveryEvent::Found(vec![record(1, 5), no_identity]));
    assert_eq!(action, DiscoveryAction::Sleep(10));
}

#[test]
fn peers_go_out_in_order_one_per_answer() {
    let mut task = searching(10);
    let records = vec![record(4, 10), record(9, 3), record(6, 10), record(5, 10)];
    assert_eq!(task.step(DiscoveryEvent::Found(records)), DiscoveryAction::Send(peer(4)));
    assert_eq!(task.phase(), Phase::Publishing);
    assert_eq!(task.backlog(), 2);
    assert_eq!(task.step(DiscoveryEvent::Sent(true)), DiscoveryAction::Send(peer(6)));
    assert_eq!(task.step(DiscoveryEvent::Sent(true)), DiscoveryAction::Send(peer(5)));
    assert_eq!(task.backlog(), 0);
    assert_eq!(task.step(DiscoveryEvent::Sent(true)), DiscoveryAction::Sleep(10));
    assert_eq!(task.step(DiscoveryEvent::Woke), DiscoveryAction::Lookup);
}

#[test]
fn task_waits_while_a_send_is_outstanding() {
    let mut task = searching(10);
    task.step(DiscoveryEvent::Found(vec![record(1, 10), record(2, 10)]));
    assert_eq!(task.step(DiscoveryEvent::Woke), DiscoveryAction::Wait);
    assert_eq!(task.step(DiscoveryEvent::LookupFailed), DiscoveryAction::Wait);
    assert_eq!(task.step(DiscoveryEvent::Found(vec![record(7, 10)])), DiscoveryAction::Wait);
    assert_eq!(task.step(DiscoveryEvent::Spawned), DiscoveryAction::Wait);
    assert_eq!(task.phase(), Phase::Publishing);
    assert_eq!(task.backlog(), 1);
    assert_eq!(task.step(DiscoveryEvent::Sent(true)), DiscoveryAction::Send(peer(2)));
}

#[test]
fn full_channel_suspends_the_task_after_capacity_plus_one() {
    let records: Vec<Record> = (1..=300).map(|n| record(n, 10)).collect();
    let mut task = searching(10);
    let mut offered = vec![task.step(DiscoveryEvent::Found(records))];
    for _ in 0..256 {
        offered.push(task.step(DiscoveryEvent::Sent(true)));
    }
    assert_eq!(offered.len(), 257);
    for (i, action) in offered.iter().enumerate() {
        assert_eq!(*action, DiscoveryAction::Send(peer(i as u16 + 1)));
    }
    assert_eq!(task.phase(), Phase::Publishing);
    assert_eq!(task.backlog(), 300 - 257);
    assert_eq!(task.step(DiscoveryEvent::Woke), DiscoveryAction::Wait);
    assert_eq!(task.backlog(), 300 - 257);
    assert_eq!(task.step(DiscoveryEvent::Sent(true)), DiscoveryAction::Send(peer(258)));
}

#[test]
fn closed_channel_ends_the_task() {
    let mut task = searching(10);
    task.step(DiscoveryEvent::Found(vec![record(1, 10), record(2, 10), record(3, 10)]));
    assert_eq!(task.step(DiscoveryEvent::Sent(false)), DiscoveryAction::Stop);
    assert!(task.is_stopped());
    assert_eq!(task.backlog(), 0);
    assert_eq!(task.step(DiscoveryEvent::Sent(true)), DiscoveryAction::Stop);
    assert_eq!(task.step(DiscoveryEvent::Woke), DiscoveryAction::Stop);
}

#[test]
fn task_filters_by_its_own_chain() {
    let mut task = searching(8453);
    let records = vec![record(1, 10), record(2, 8453), record(3, 1)];
    assert_eq!(task.step(DiscoveryEvent::Found(records)), DiscoveryAction::Send(peer(2)));
    assert_eq!(task.chain_id(), 8453);
}
