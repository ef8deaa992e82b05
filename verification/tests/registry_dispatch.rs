use bytes::Bytes;
use netdebug::channel::SendOutcome;
use netdebug::message::{ConnectionInfo, SocketAddress};
use netdebug::registry::{record_delivery, Registry};
use tokio::sync::mpsc::error::TryRecvError;
use tokio::sync::mpsc::{channel, Receiver};

fn peer(port: u16) -> ConnectionInfo {
    ConnectionInfo {
        remote_addr: SocketAddress::V4 { octets: [127, 0, 0, 1], port },
        connection_id: format!("127.0.0.1:{}", port),
    }
}

fn register(registry: &mut Registry, port: u16, capacity: usize) -> Receiver<Bytes> {
    let (tx, rx) = channel::<Bytes>(capacity);
    registry.insert(peer(port), tx);
    rx
}

fn ids(registry: &Registry) -> Vec<String> {
    registry.snapshot().into_iter().map(|c| c.connection_id).collect()
}

#[test]
fn a_new_registry_is_empty() {
    let registry = Registry::new();
    assert_eq!(registry.len(), 0);
    assert!(registry.snapshot().is_empty());
    assert!(!registry.contains(&"127.0.0.1:1".to_string()));
}

#[test]
fn connections_are_listed_in_the_order_they_came() {
    let mut registry = Registry::new();
    let _a = register(&mut registry, 1, 4);
    let _b = register(&mut registry, 2, 4);
    let _c = register(&mut registry, 3, 4);
    assert_eq!(registry.len(), 3);
    assert_eq!(ids(&registry), vec!["127.0.0.1:1", "127.0.0.1:2", "127.0.0.1:3"]);
    let list = registry.snapshot();
    assert_eq!(list[1].remote_addr, SocketAddress::V4 { octets: [127, 0, 0, 1], port: 2 });
    assert!(registry.contains(&"127.0.0.1:2".to_string()));
    assert!(!registry.contains(&"127.0.0.1:4".to_string()));
}

#[test]
fn registering_an_identifier_again_replaces_its_entry() {
    let mut registry = Registry::new();
    let mut old = register(&mut registry, 1, 4);
    let _b = register(&mut registry, 2, 4);
    let mut new = register(&mut registry, 1, 4);
    assert_eq!(registry.len(), 2);
    assert_eq!(ids(&registry), vec!["127.0.0.1:1", "127.0.0.1:2"]);
    let report = registry.dispatch(&Bytes::from_static(b"x"), &Some("127.0.0.1:1".to_string()));
    assert_eq!(report.len(), 1);
    assert_eq!(report[0].outcome, SendOutcome::Queued);
    assert_eq!(new.try_recv(), Ok(Bytes::from_static(b"x")));
    assert_eq!(old.try_recv(), Err(TryRecvError::Disconnected));
}

#[test]
fn removing_takes_out_the_one_connection() {
    let mut registry = Registry::new();
    let _a = register(&mut registry, 1, 4);
    let _b = register(&mut registry, 2, 4);
    let _c = register(&mut registry, 3, 4);
    assert!(registry.remove(&"127.0.0.1:2".to_string()));
    assert_eq!(ids(&registry), vec!["127.0.0.1:1", "127.0.0.1:3"]);
    assert!(!registry.remove(&"127.0.0.1:2".to_string()));
    assert_eq!(ids(&registry), vec!["127.0.0.1:1", "127.0.0.1:3"]);
    assert!(registry.remove(&"127.0.0.1:1".to_string()));
    assert!(registry.remove(&"127.0.0.1:3".to_string()));
    assert_eq!(registry.len(), 0);
}

#[test]
fn a_broadcast_reaches_every_connection_once() {
    let mut registry = Registry::new();
    let mut a = register(&mut registry, 1, 4);
    let mut b = register(&mut registry, 2, 4);
    let report = registry.dispatch(&Bytes::from_static(b"hi"), &None);
    assert_eq!(report.len(), 2);
    assert_eq!(report[0].connection_id, "127.0.0.1:1");
    assert_eq!(report[1].connection_id, "127.0.0.1:2");
    assert_eq!(report[0].outcome, SendOutcome::Queued);
    assert_eq!(report[1].outcome, SendOutcome::Queued);
    assert_eq!(report[0].payload, Bytes::from_static(b"hi"));
    assert_eq!(report[1].payload, Bytes::from_static(b"hi"));
    assert!(report[0].delivered() && report[1].delivered());
    assert_eq!(a.try_recv(), Ok(Bytes::from_static(b"hi")));
    assert_eq!(a.try_recv(), Err(TryRecvError::Empty));
    assert_eq!(b.try_recv(), Ok(Bytes::from_static(b"hi")));
    assert_eq!(b.try_recv(), Err(TryRecvError::Empty));
}

#[test]
fn a_targeted_send_reaches_only_its_target() {
    let mut registry = Registry::new();
    let mut a = register(&mut registry, 1, 4);
    let mut b = register(&mut registry, 2, 4);
    let report = registry.dispatch(&Bytes::from_static(b"to b"), &Some("127.0.0.1:2".to_string()));
    assert_eq!(report.len(), 1);
    assert_eq!(report[0].connection_id, "127.0.0.1:2");
    assert_eq!(report[0].outcome, SendOutcome::Queued);
    assert_eq!(a.try_recv(), Err(TryRecvError::Empty));
    assert_eq!(b.try_recv(), Ok(Bytes::from_static(b"to b")));
    assert_eq!(b.try_recv(), Err(TryRecvError::Empty));
}

#[test]
fn a_send_to_an_unknown_target_reaches_nobody() {
    let mut registry = Registry::new();
    let mut a = register(&mut registry, 1, 4);
    let report = registry.dispatch(&Bytes::from_static(b"lost"), &Some("127.0.0.1:9".to_string()));
    assert!(report.is_empty());
    assert_eq!(a.try_recv(), Err(TryRecvError::Empty));
}

#[test]
fn a_full_channel_drops_the_bytes_and_the_others_still_get_them() {
    let mut registry = Registry::new();
    let mut small = register(&mut registry, 1, 1);
    let mut large = register(&mut registry, 2, 4);
    let first = registry.dispatch(&Bytes::from_static(b"one"), &None);
    assert_eq!(first[0].outcome, SendOutcome::Queued);
    assert_eq!(first[1].outcome, SendOutcome::Queued);
    let second = registry.dispatch(&Bytes::from_static(b"two"), &None);
    assert_eq!(second[0].connection_id, "127.0.0.1:1");
    assert_eq!(second[0].outcome, SendOutcome::Full);
    assert_eq!(second[1].outcome, SendOutcome::Queued);
    assert_eq!(second[0].payload, Bytes::from_static(b"two"));
    assert_eq!(second[1].payload, Bytes::from_static(b"two"));
    assert!(!second[0].delivered());
    assert!(second[1].delivered());
    assert_eq!(small.try_recv(), Ok(Bytes::from_static(b"one")));
    assert_eq!(small.try_recv(), Err(TryRecvError::Empty));
    assert_eq!(large.try_recv(), Ok(Bytes::from_static(b"one")));
    assert_eq!(large.try_recv(), Ok(Bytes::from_static(b"two")));
}

#[test]
fn a_closed_channel_is_reported_as_closed() {
    let mut registry = Registry::new();
    let gone = register(&mut registry, 1, 4);
    drop(gone);
    let report = registry.dispatch(&Bytes::from_static(b"x"), &Some("127.0.0.1:1".to_string()));
    assert_eq!(report.len(), 1);
    assert_eq!(report[0].outcome, SendOutcome::Closed);
    assert_eq!(report[0].payload, Bytes::from_static(b"x"));
    assert!(!report[0].delivered());
    assert_eq!(registry.len(), 1);
}

#[test]
fn a_broadcast_without_connections_reaches_nobody() {
    let mut registry = Registry::new();
    let report = registry.dispatch(&Bytes::from_static(b"anyone?"), &None);
    assert!(report.is_empty());
    assert_eq!(registry.len(), 0);
}

#[test]
fn a_delivery_is_written_down_as_it_is_given() {
    let d = record_delivery("peer".to_string(), Bytes::from_static(b"abc"), SendOutcome::Full);
    assert_eq!(d.connection_id, "peer");
    assert_eq!(d.payload, Bytes::from_static(b"abc"));
    assert_eq!(d.outcome, SendOutcome::Full);
    assert!(!d.delivered());
    assert!(record_delivery(String::new(), Bytes::new(), SendOutcome::Queued).delivered());
    assert!(!record_delivery(String::new(), Bytes::new(), SendOutcome::Closed).delivered());
}
