use lemon_communicator::comms::client::client_reqs::{exit_network, found_dead_client};
use lemon_communicator::comms::client::{
    CheckIfDeadError, GetAddr, GetId, GetWeak, KnownClients, RegisteredClient, WeakClient,
};
use lemon_communicator::comms::client_data::{Client, IdCounter};
use lemon_communicator::comms::network::api::{MessageType, NetworkChangeType, Status};
use lemon_communicator::comms::network::NetworkChanges;

fn join(clients: &mut KnownClients, log: &mut NetworkChanges, name: &str) -> u64 {
    let id = clients.next_id();
    let w = WeakClient::new(id, format!("127.0.0.1:{}", 5000 + id), name.to_string());
    clients.add(RegisteredClient::from(&w), log);
    id
}

fn ids(clients: &KnownClients) -> Vec<u64> {
    clients.to_weak().iter().map(|w| w.get_id()).collect()
}

fn pending(log: &NetworkChanges) -> Vec<NetworkChangeType> {
    match log.get_changes() {
        None => vec![],
        Some(m) => m.changes.iter().map(|c| c.change_type).collect(),
    }
}

#[test]
fn ids_count_up_from_zero() {
    let mut clients = KnownClients::create();
    assert_eq!(clients.next_id(), 0);
    assert_eq!(clients.next_id(), 1);
    assert_eq!(clients.next_id(), 2);
    let mut counter = IdCounter::new();
    let a = Client::new(&mut counter, "1.2.3.4:5".to_string(), "a".to_string());
    let b = Client::new(&mut counter, "1.2.3.4:6".to_string(), "b".to_string());
    assert_eq!((a.id, b.id), (0, 1));
    assert_eq!(a.name, "a");
    assert_eq!(b.addr, "1.2.3.4:6");
}

#[test]
fn added_clients_are_registered_in_order() {
    let mut clients = KnownClients::create();
    let mut log = NetworkChanges::new();
    let a = join(&mut clients, &mut log, "alice");
    let b = join(&mut clients, &mut log, "bob");
    assert_eq!(ids(&clients), vec![a, b]);
    assert!(clients.check_if_exists(&a));
    assert!(clients.check_if_exists(&b));
    assert!(!clients.check_if_exists(&99u64));
    assert_eq!(pending(&log), vec![NetworkChangeType::JoinNetwork, NetworkChangeType::JoinNetwork]);
    let weak = clients.to_weak();
    assert_eq!(weak[1].name, "bob");
    assert_eq!(weak[1].get_addr(), "127.0.0.1:5001");
    let state = clients.get_network_state();
    assert!(matches!(state.response_type, MessageType::GetNetworkState));
    assert!(matches!(state.status, Status::Success));
    assert!(state.error.is_none());
    assert_eq!(state.clients.len(), 2);
    assert_eq!(state.clients[0].name, "alice");
    assert_eq!(state.clients[0].id, a);
}

#[test]
fn remove_undoes_add() {
    let mut clients = KnownClients::create();
    let mut log = NetworkChanges::new();
    let a = join(&mut clients, &mut log, "alice");
    let b = join(&mut clients, &mut log, "bob");
    let second = clients.to_weak()[1].clone();
    assert!(clients.remove(&second, &mut log));
    assert_eq!(ids(&clients), vec![a]);
    assert!(!clients.check_if_exists(&b));
    assert_eq!(
        pending(&log),
        vec![NetworkChangeType::JoinNetwork, NetworkChangeType::JoinNetwork, NetworkChangeType::ExitNetwork]
    );
    let gone = WeakClient::new(b, "x".to_string(), "bob".to_string());
    assert!(!clients.remove(&gone, &mut log));
    assert_eq!(pending(&log).len(), 3);
    assert_eq!(ids(&clients), vec![a]);
}

#[test]
fn remove_takes_the_first_of_equal_ids() {
    let mut clients = KnownClients::create();
    let mut log = NetworkChanges::new();
    for name in ["first", "second"] {
        let w = WeakClient::new(7, "a".to_string(), name.to_string());
        clients.add(RegisteredClient::from(&w), &mut log);
    }
    assert!(clients.remove(&WeakClient::new(7, String::new(), String::new()), &mut log));
    assert_eq!(clients.to_weak()[0].name, "second");
}

#[test]
fn remove_multiple_keeps_only_the_reported() {
    let mut clients = KnownClients::create();
    let mut log = NetworkChanges::new();
    let _a = join(&mut clients, &mut log, "a");
    let b = join(&mut clients, &mut log, "b");
    let _c = join(&mut clients, &mut log, "c");
    log.reset_changes();
    let dead = vec![WeakClient::new(b, String::new(), String::new())];
    let disconnected = clients.remove_multiple(&dead, &mut log);
    assert_eq!(disconnected, vec![b]);
    assert_eq!(ids(&clients), vec![b]);
    assert_eq!(pending(&log), vec![NetworkChangeType::ExitNetwork]);
}

#[test]
fn remove_multiple_records_each_reported_client() {
    let mut clients = KnownClients::create();
    let mut log = NetworkChanges::new();
    let a = join(&mut clients, &mut log, "a");
    log.reset_changes();
    let dead = vec![a, 42u64];
    let dead: Vec<WeakClient> = dead.into_iter().map(|i| WeakClient::new(i, String::new(), String::new())).collect();
    let disconnected = clients.remove_multiple(&dead, &mut log);
    assert_eq!(disconnected, vec![a]);
    assert_eq!(pending(&log).len(), 2);
}

#[test]
fn vibe_check_keeps_the_clients_found_dead() {
    let mut clients = KnownClients::create();
    let mut log = NetworkChanges::new();
    let _a = join(&mut clients, &mut log, "a");
    let b = join(&mut clients, &mut log, "b");
    let _c = join(&mut clients, &mut log, "c");
    log.reset_changes();
    let checked = clients.to_weak();
    let disconnected = clients.vibe_check(&checked, &vec![false, true, false], &mut log);
    assert_eq!(disconnected, vec![b]);
    assert_eq!(ids(&clients), vec![b]);
    assert_eq!(pending(&log), vec![NetworkChangeType::ExitNetwork]);
}

#[test]
fn vibe_check_with_no_client_dead_empties_the_registry() {
    let mut clients = KnownClients::create();
    let mut log = NetworkChanges::new();
    join(&mut clients, &mut log, "a");
    join(&mut clients, &mut log, "b");
    log.reset_changes();
    let checked = clients.to_weak();
    let disconnected = clients.vibe_check(&checked, &vec![false, false], &mut log);
    assert!(disconnected.is_empty());
    assert!(ids(&clients).is_empty());
    assert!(log.get_changes().is_none());
}

#[test]
fn update_removes_the_clients_that_failed() {
    let mut clients = KnownClients::create();
    let mut log = NetworkChanges::new();
    let a = join(&mut clients, &mut log, "a");
    let b = join(&mut clients, &mut log, "b");
    let c = join(&mut clients, &mut log, "c");
    log.reset_changes();
    let updated = clients.to_weak();
    let disconnected = clients.update_clients(&updated, &vec![true, false, true], &mut log);
    assert_eq!(disconnected, vec![b]);
    assert_eq!(ids(&clients), vec![a, c]);
    assert_eq!(pending(&log), vec![NetworkChangeType::ExitNetwork]);
    let again = clients.update_clients(&updated, &vec![false, false, true], &mut log);
    assert_eq!(again, vec![a]);
    assert_eq!(ids(&clients), vec![c]);
}

#[test]
fn check_if_dead_finds_registered_clients() {
    let mut clients = KnownClients::create();
    let mut log = NetworkChanges::new();
    let a = join(&mut clients, &mut log, "a");
    assert!(matches!(clients.check_if_dead(&a), Ok(id) if id == a));
    assert!(matches!(clients.check_if_dead(&(a + 1)), Err(CheckIfDeadError::NotFound)));
}

#[test]
fn registered_client_from_weak() {
    let w = WeakClient::new(3, "1.2.3.4:9".to_string(), "n".to_string());
    let r = RegisteredClient::from(&w);
    assert_eq!((r.id, r.addr.as_str(), r.name.as_str()), (3, "1.2.3.4:9", "n"));
    assert_eq!(r.weak().get_id(), 3);
    assert_eq!(r.get_addr(), "1.2.3.4:9");
    let c = w.to_client();
    assert_eq!((c.id, c.addr.as_str(), c.name.as_str()), (3, "1.2.3.4:9", "n"));
    assert_eq!(5u64.get_id(), 5);
}

#[test]
fn exit_network_answers() {
    let mut clients = KnownClients::create();
    let mut log = NetworkChanges::new();
    let a = join(&mut clients, &mut log, "a");
    let me = clients.to_weak()[0].clone();
    let (removed, answers) = exit_network(&mut clients, &me, &mut log);
    assert!(removed);
    assert!(!clients.check_if_exists(&a));
    assert_eq!(answers.len(), 1);
    assert!(matches!(answers[0].response_type, MessageType::Result));
    assert!(matches!(answers[0].status, Status::Success));
    assert_eq!(answers[0].error.as_deref(), Some("null"));
    let (removed, answers) = exit_network(&mut clients, &me, &mut log);
    assert!(!removed);
    assert_eq!(answers.len(), 2);
    assert!(matches!(answers[0].status, Status::Error));
    assert_eq!(answers[0].error.as_deref(), Some("Client not found"));
    assert!(matches!(answers[1].status, Status::Success));
}

#[test]
fn found_dead_client_removes_only_when_the_check_failed() {
    let mut clients = KnownClients::create();
    let mut log = NetworkChanges::new();
    let a = join(&mut clients, &mut log, "a");
    let reported = clients.to_weak()[0].clone();
    let (removed, answer) = found_dead_client(&mut clients, &reported, &Ok(true), &mut log);
    assert!(!removed);
    assert!(clients.check_if_exists(&a));
    assert!(matches!(answer.status, Status::Success));
    let (removed, answer) =
        found_dead_client(&mut clients, &reported, &Err(CheckIfDeadError::NotFound), &mut log);
    assert!(removed);
    assert!(!clients.check_if_exists(&a));
    assert_eq!(answer.error.as_deref(), Some("null"));
}
