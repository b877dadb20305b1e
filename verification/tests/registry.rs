use blog_backend::ws::clients::{create_clients, Client, Clients, Outbound};
use blog_backend::ws::ws_handler::{
    broadcast, client_connected, deliver, recorded, send_message_to_clients,
};
use std::sync::Arc;
use tokio::sync::mpsc::error::TryRecvError;
use tokio::sync::mpsc::{unbounded_channel, UnboundedReceiver};
use tokio::sync::Mutex;
use warp::ws::Message;

type Inbox = UnboundedReceiver<Result<Message, warp::Error>>;

fn channel() -> (Outbound, Inbox) {
    unbounded_channel()
}

fn next_text(inbox: &mut Inbox) -> Option<String> {
    match inbox.try_recv() {
        Ok(Ok(message)) => Some(message.to_str().unwrap().to_string()),
        Ok(Err(_)) => panic!("an error was queued"),
        Err(_) => None,
    }
}

#[test]
fn new_registry_is_empty() {
    let clients = create_clients();
    assert_eq!(clients.len(), 0);
    assert!(clients.snapshot().is_empty());
    assert!(!clients.contains(&"a".to_string()));
}

#[test]
fn register_adds_a_session() {
    let mut clients = Clients::new();
    let (tx, _rx) = channel();
    clients.register("a".to_string(), tx);
    assert_eq!(clients.len(), 1);
    assert!(clients.contains(&"a".to_string()));
    assert!(!clients.contains(&"b".to_string()));
}

#[test]
fn register_overwrites_an_existing_id() {
    let mut clients = Clients::new();
    let (old_tx, mut old_rx) = channel();
    let (new_tx, mut new_rx) = channel();
    clients.register("a".to_string(), old_tx);
    clients.register("a".to_string(), new_tx);
    assert_eq!(clients.len(), 1);
    let report = send_message_to_clients("hello".to_string(), &clients);
    assert_eq!(report.len(), 1);
    assert_eq!(next_text(&mut new_rx), Some("hello".to_string()));
    assert_eq!(old_rx.try_recv().err(), Some(TryRecvError::Disconnected));
}

#[test]
fn unregister_of_an_absent_id_changes_nothing() {
    let mut clients = Clients::new();
    assert!(!clients.unregister(&"ghost".to_string()));
    assert_eq!(clients.len(), 0);
    let (tx, mut rx) = channel();
    clients.register("a".to_string(), tx);
    assert!(!clients.unregister(&"ghost".to_string()));
    assert_eq!(clients.len(), 1);
    assert!(clients.contains(&"a".to_string()));
    send_message_to_clients("still here".to_string(), &clients);
    assert_eq!(next_text(&mut rx), Some("still here".to_string()));
}

#[test]
fn unregister_is_idempotent() {
    let mut clients = Clients::new();
    let (tx, _rx) = channel();
    clients.register("a".to_string(), tx);
    assert!(clients.unregister(&"a".to_string()));
    assert!(!clients.unregister(&"a".to_string()));
    assert_eq!(clients.len(), 0);
}

#[test]
fn snapshot_is_not_changed_by_later_registrations() {
    let mut clients = Clients::new();
    let (tx_a, mut rx_a) = channel();
    let (tx_b, mut rx_b) = channel();
    clients.register("a".to_string(), tx_a);
    let snapshot = clients.snapshot();
    clients.register("b".to_string(), tx_b);
    clients.unregister(&"a".to_string());
    assert_eq!(snapshot.len(), 1);
    assert_eq!(snapshot[0].client_id, "a");
    let report = broadcast(&snapshot, "x");
    assert_eq!(report.len(), 1);
    assert!(report[0].delivered);
    assert_eq!(next_text(&mut rx_a), Some("x".to_string()));
    assert_eq!(next_text(&mut rx_b), None);
}

#[test]
fn broadcast_reaches_the_others_when_one_channel_is_closed() {
    let mut clients = Clients::new();
    let (tx_a, mut rx_a) = channel();
    let (tx_b, rx_b) = channel();
    let (tx_c, mut rx_c) = channel();
    clients.register("a".to_string(), tx_a);
    clients.register("b".to_string(), tx_b);
    clients.register("c".to_string(), tx_c);
    drop(rx_b);
    let report = send_message_to_clients("x".to_string(), &clients);
    assert_eq!(report.len(), 3);
    for outcome in &report {
        assert_eq!(outcome.delivered, outcome.client_id != "b");
    }
    assert_eq!(next_text(&mut rx_a), Some("x".to_string()));
    assert_eq!(next_text(&mut rx_a), None);
    assert_eq!(next_text(&mut rx_c), Some("x".to_string()));
    assert_eq!(next_text(&mut rx_c), None);
    // a failed delivery does not take the session out of the registry
    assert_eq!(clients.len(), 3);
    assert!(clients.contains(&"b".to_string()));
}

#[test]
fn every_registered_session_gets_one_attempt_in_any_order() {
    let orders: [[usize; 5]; 3] = [[0, 1, 2, 3, 4], [4, 3, 2, 1, 0], [2, 0, 4, 1, 3]];
    for order in orders {
        let mut clients = Clients::new();
        let mut inboxes: Vec<(String, Inbox)> = Vec::new();
        for n in order {
            let (tx, rx) = channel();
            let id = format!("session-{}", n);
            clients.register(id.clone(), tx);
            inboxes.push((id, rx));
        }
        let report = send_message_to_clients("ping".to_string(), &clients);
        assert_eq!(report.len(), 5);
        let mut seen: Vec<String> = report.iter().map(|d| d.client_id.clone()).collect();
        seen.sort();
        seen.dedup();
        assert_eq!(seen.len(), 5);
        for (_, inbox) in inboxes.iter_mut() {
            assert_eq!(next_text(inbox), Some("ping".to_string()));
            assert_eq!(next_text(inbox), None);
        }
    }
}

#[test]
fn notifications_follow_connects_and_disconnects() {
    let mut clients = Clients::new();
    let (tx_a, mut rx_a) = channel();
    let (tx_b, mut rx_b) = channel();
    clients.register("A".to_string(), tx_a);
    clients.register("B".to_string(), tx_b);
    send_message_to_clients("Post has been created".to_string(), &clients);
    assert_eq!(next_text(&mut rx_a), Some("Post has been created".to_string()));
    assert_eq!(next_text(&mut rx_a), None);
    assert_eq!(next_text(&mut rx_b), Some("Post has been created".to_string()));
    assert_eq!(next_text(&mut rx_b), None);

    assert!(clients.unregister(&"A".to_string()));
    send_message_to_clients("Post has been updated".to_string(), &clients);
    assert_eq!(rx_a.try_recv().err(), Some(TryRecvError::Disconnected));
    assert_eq!(next_text(&mut rx_b), Some("Post has been updated".to_string()));
    assert_eq!(next_text(&mut rx_b), None);
    assert!(!clients.unregister(&"A".to_string()));
    assert!(!clients.contains(&"A".to_string()));
}

#[test]
fn connected_client_gets_a_fresh_hex_id() {
    let mut clients = Clients::new();
    let (tx_a, mut rx_a) = channel();
    let (tx_b, _rx_b) = channel();
    let a = client_connected(&mut clients, tx_a);
    let b = client_connected(&mut clients, tx_b);
    assert_eq!(a.len(), 32);
    assert!(a.chars().all(|c| c.is_ascii_digit() || ('a'..='f').contains(&c)));
    assert_ne!(a, b);
    assert_eq!(clients.len(), 2);
    assert!(clients.contains(&a));
    send_message_to_clients("hi".to_string(), &clients);
    assert_eq!(next_text(&mut rx_a), Some("hi".to_string()));
}

#[test]
fn session_without_a_handle_is_not_delivered_to() {
    let client = Client { client_id: "a".to_string(), sender: None };
    let outcome = deliver(&client, "x");
    assert_eq!(outcome.client_id, "a");
    assert!(!outcome.delivered);
}

#[test]
fn delivery_queues_the_text_as_sent() {
    let (tx, mut rx) = channel();
    let client = Client { client_id: "a".to_string(), sender: Some(tx) };
    assert!(deliver(&client, "Author has been deleted").delivered);
    assert_eq!(next_text(&mut rx), Some("Author has been deleted".to_string()));
}

#[test]
fn only_a_queued_message_counts_as_delivered() {
    assert!(recorded("a".to_string(), Some(true)).delivered);
    assert!(!recorded("a".to_string(), Some(false)).delivered);
    assert!(!recorded("a".to_string(), None).delivered);
    assert_eq!(recorded("a".to_string(), None).client_id, "a");
}

#[test]
fn concurrent_registrations_are_all_notified() {
    let runtime = tokio::runtime::Builder::new_multi_thread().worker_threads(4).build().unwrap();
    runtime.block_on(async {
        let clients = Arc::new(Mutex::new(Clients::new()));
        let mut tasks = Vec::new();
        for n in 0..64 {
            let clients = clients.clone();
            tasks.push(tokio::spawn(async move {
                let (tx, rx) = channel();
                clients.lock().await.register(format!("session-{}", n), tx);
                rx
            }));
        }
        let mut inboxes = Vec::new();
        for task in tasks {
            inboxes.push(task.await.unwrap());
        }
        let sessions = clients.lock().await.snapshot();
        let report = broadcast(&sessions, "ping");
        assert_eq!(report.len(), 64);
        assert!(report.iter().all(|delivery| delivery.delivered));
        for inbox in inboxes.iter_mut() {
            assert_eq!(next_text(inbox), Some("ping".to_string()));
            assert_eq!(next_text(inbox), None);
        }
    });
}

#[test]
fn cloned_client_feeds_the_same_channel() {
    let (tx, mut rx) = channel();
    let client = Client { client_id: "a".to_string(), sender: Some(tx) };
    let copy = client.clone();
    assert_eq!(copy.client_id, "a");
    assert!(deliver(&copy, "one").delivered);
    assert!(deliver(&client, "two").delivered);
    assert_eq!(next_text(&mut rx), Some("one".to_string()));
    assert_eq!(next_text(&mut rx), Some("two".to_string()));
    let bare = Client { client_id: "b".to_string(), sender: None };
    assert!(bare.clone().sender.is_none());
}
