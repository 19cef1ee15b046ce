use std::collections::HashMap;

use aether_void_net::hub::{HubError, PeerEndpoints, SessionHub};
use aether_void_net::options::{Id, PeerAddr};
use aether_void_net::utils::create_sessions_map;

fn addr(last: u8, port: u16) -> PeerAddr {
    PeerAddr::V4 { ip: [10, 0, 0, last], port }
}

fn ep(last: u8) -> PeerEndpoints {
    PeerEndpoints::new(Some(addr(last, 1000)), None)
}

#[test]
fn new_hub_holds_given_sessions() {
    let mut m = HashMap::new();
    m.insert(7u32, ep(7));
    let hub = SessionHub::new(m);
    assert_eq!(hub.get_peer(Id(7)), Some(ep(7)));
    assert_eq!(hub.get_peer(Id(8)), None);
}

#[test]
fn add_then_get_returns_endpoints() {
    let mut hub = SessionHub::default();
    assert_eq!(hub.get_peer(Id(1)), None);
    hub.add_peer(Id(1), ep(1));
    assert_eq!(hub.get_peer(Id(1)), Some(ep(1)));
    hub.add_peer(Id(1), ep(2));
    assert_eq!(hub.get_peer(Id(1)), Some(ep(2)));
    assert_eq!(hub.get_peer(Id(2)), None);
}

#[test]
fn add_peer_group_last_pair_wins_and_surplus_ignored() {
    let mut hub = SessionHub::default();
    hub.add_peer_group(&[Id(1), Id(2), Id(1), Id(3)], &[ep(1), ep(2), ep(9)]);
    assert_eq!(hub.get_peer(Id(1)), Some(ep(9)));
    assert_eq!(hub.get_peer(Id(2)), Some(ep(2)));
    assert_eq!(hub.get_peer(Id(3)), None);
}

#[test]
fn get_peer_group_appends_in_order() {
    let mut hub = SessionHub::default();
    hub.add_peer(Id(4), ep(4));
    let mut buffer = vec![None];
    hub.get_peer_group(&[Id(4), Id(5), Id(4)], &mut buffer);
    assert_eq!(buffer, vec![None, Some(ep(4)), None, Some(ep(4))]);
}

#[test]
fn create_peer_then_duplicate_is_refused() {
    let mut hub = SessionHub::default();
    let a = addr(5, 4242);
    let r = hub.create_peer(Id(1), a);
    assert_eq!(r, Ok("Peer Id(1) successfully created".to_string()));
    assert_eq!(hub.get_peer(Id(1)), Some(PeerEndpoints::new(Some(a), None)));
    let r2 = hub.create_peer(Id(1), addr(6, 1));
    assert_eq!(r2, Err(HubError::PeerExists(Id(1))));
    assert_eq!(r2.unwrap_err().message(), "The peer Id(1) already exists.");
    assert_eq!(hub.get_peer(Id(1)), Some(PeerEndpoints::new(Some(a), None)));
}

#[test]
fn create_peer_message_renders_large_id() {
    let mut hub = SessionHub::default();
    let r = hub.create_peer(Id(4294967295), addr(1, 1));
    assert_eq!(r, Ok("Peer Id(4294967295) successfully created".to_string()));
    let r0 = hub.create_peer(Id(0), addr(1, 1));
    assert_eq!(r0, Ok("Peer Id(0) successfully created".to_string()));
}

#[test]
fn connect_to_existing_peer_returns_its_endpoints() {
    let mut hub = SessionHub::default();
    let a = addr(3, 30);
    hub.create_peer(Id(12), a).unwrap();
    let (endpoints, msg) = hub.connect_peer(Id(12)).unwrap();
    assert_eq!(endpoints, PeerEndpoints::new(Some(a), None));
    assert_eq!(msg, "Successful connection to the peer Id(12)");
}

#[test]
fn connect_to_missing_peer_is_refused() {
    let hub = SessionHub::default();
    let e = hub.connect_peer(Id(40)).unwrap_err();
    assert_eq!(e, HubError::PeerNotFound(Id(40)));
    assert_eq!(e.message(), "Peer Id(40) not found");
}

#[test]
fn create_sessions_map_zips_pairs() {
    let m = create_sessions_map(&[Id(1), Id(2), Id(2)], &[ep(1), ep(2), ep(3), ep(4)]);
    assert_eq!(m.len(), 2);
    assert_eq!(m.get(&1), Some(&ep(1)));
    assert_eq!(m.get(&2), Some(&ep(3)));
    let empty = create_sessions_map(&[], &[ep(1)]);
    assert!(empty.is_empty());
}

#[test]
fn peer_endpoints_new_keeps_both() {
    let a = addr(1, 1);
    let b = PeerAddr::V6 { ip: [0; 16], port: 2, flowinfo: 3, scope_id: 4 };
    let e = PeerEndpoints::new(Some(a), Some(b));
    assert_eq!(e.main_peer_one, Some(a));
    assert_eq!(e.main_peer_two, Some(b));
}

#[test]
fn id_new_wraps_number() {
    assert_eq!(Id::new(5), Id(5));
    assert_eq!(Id::new(5).0, 5);
}

#[test]
fn repeated_creates_first_wins() {
    let mut hub = SessionHub::default();
    let results: Vec<_> = (1..=4u8).map(|k| hub.create_peer(Id(9), addr(k, 1))).collect();
    assert_eq!(results[0], Ok("Peer Id(9) successfully created".to_string()));
    for r in &results[1..] {
        assert_eq!(r, &Err(HubError::PeerExists(Id(9))));
    }
    assert_eq!(hub.get_peer(Id(9)), Some(PeerEndpoints::new(Some(addr(1, 1)), None)));
}
