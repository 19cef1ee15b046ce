use aether_void_net::hub::PeerEndpoints;
use aether_void_net::node::{take_packet, take_received, PacketRouter, ReceiveError};
use aether_void_net::options::{Id, PeerAddr, SessionRequest};
use aether_void_net::packet::{fnv1a_hash, type_hash, Packet, PacketType, UnpackedPacket};
use aether_void_net::utils::mark_packet;
use bytes::{Bytes, BytesMut};

fn fnv_reference(data: &[u8]) -> u64 {
    let mut h: u64 = 0xcbf29ce484222325;
    for b in data {
        h ^= *b as u64;
        h = h.wrapping_mul(0x100000001b3);
    }
    h
}

#[test]
fn fnv1a_known_values() {
    assert_eq!(fnv1a_hash(b""), 0xcbf29ce484222325);
    assert_eq!(fnv1a_hash(b"a"), 0xaf63dc4c8601ec8c);
    assert_eq!(fnv1a_hash(b"foobar"), 0x85944171f73967e8);
}

#[test]
fn type_hash_hashes_utf8_bytes() {
    assert_eq!(type_hash("a"), 0xaf63dc4c8601ec8c);
    assert_eq!(type_hash("é"), fnv_reference("é".as_bytes()));
}

#[test]
fn packet_hash_hashes_full_type_path() {
    assert_eq!(
        SessionRequest::packet_hash(),
        fnv_reference(b"aether_void_net::options::SessionRequest")
    );
    assert_eq!(Id::packet_hash(), fnv_reference(b"aether_void_net::options::Id"));
    assert_eq!(
        PeerEndpoints::packet_hash(),
        fnv_reference(b"aether_void_net::hub::PeerEndpoints")
    );
}

#[test]
fn packet_hash_self_equals_packet_hash() {
    let r = SessionRequest::Connect { id: Id::new(3) };
    assert_eq!(r.packet_hash_self(), SessionRequest::packet_hash());
    assert_ne!(SessionRequest::packet_hash(), Id::packet_hash());
}

#[test]
fn mark_packet_prefixes_little_endian_type() {
    let out = mark_packet(b"xyz", 0x0102030405060708);
    assert_eq!(out, vec![8, 7, 6, 5, 4, 3, 2, 1, b'x', b'y', b'z']);
    let empty = mark_packet(b"", 0);
    assert_eq!(empty, vec![0; 8]);
}

#[test]
fn take_packet_reads_back_marked_packet() {
    let frame = mark_packet(b"payload", 0xdead_beef_0000_0042);
    let mut buf = BytesMut::from(&frame[..]);
    let len = buf.len();
    let (t, payload) = take_packet(&mut buf, len).unwrap();
    assert_eq!(t, 0xdead_beef_0000_0042);
    assert_eq!(&payload[..], b"payload");
    assert!(buf.is_empty());
}

#[test]
fn take_packet_leaves_rest_of_buffer() {
    let mut data = mark_packet(b"ab", 5);
    data.extend_from_slice(b"rest");
    let mut buf = BytesMut::from(&data[..]);
    let (t, payload) = take_packet(&mut buf, 10).unwrap();
    assert_eq!(t, 5);
    assert_eq!(&payload[..], b"ab");
    assert_eq!(&buf[..], b"rest");
}

#[test]
fn take_packet_exactly_eight_bytes_has_empty_payload() {
    let mut buf = BytesMut::from(&[1u8, 0, 0, 0, 0, 0, 0, 0][..]);
    let (t, payload) = take_packet(&mut buf, 8).unwrap();
    assert_eq!(t, 1);
    assert!(payload.is_empty());
    assert!(buf.is_empty());
}

#[test]
fn take_packet_drops_short_datagram() {
    let mut buf = BytesMut::from(&b"short"[..]);
    assert!(take_packet(&mut buf, 5).is_none());
    assert!(buf.is_empty());
    let mut buf = BytesMut::from(&b"abc"[..]);
    assert!(take_packet(&mut buf, 0).is_none());
    assert_eq!(&buf[..], b"abc");
}

#[test]
fn short_datagram_does_not_disturb_next_packet() {
    let mut buf = BytesMut::from(&[1u8, 1, 1, 1, 1][..]);
    let next = mark_packet(&[2], 0);
    buf.extend_from_slice(&next);
    assert!(take_packet(&mut buf, 5).is_none());
    let (t, payload) = take_packet(&mut buf, 9).unwrap();
    assert_eq!(t, 0);
    assert_eq!(&payload[..], &[2]);
    assert!(buf.is_empty());
}

#[test]
fn take_received_refuses_length_beyond_buffer() {
    let mut buf = BytesMut::from(&b"abcd"[..]);
    assert_eq!(take_received(&mut buf, 5).unwrap_err(), ReceiveError::LengthExceedsBuffer);
    assert_eq!(&buf[..], b"abcd");
    assert!(take_received(&mut buf, 4).unwrap().is_none());
    assert!(buf.is_empty());
    let frame = mark_packet(b"z", 77);
    let mut buf = BytesMut::from(&frame[..]);
    let (t, payload) = take_received(&mut buf, frame.len()).unwrap().unwrap();
    assert_eq!(t, 77);
    assert_eq!(&payload[..], b"z");
}

#[test]
fn packet_and_unpacked_packet_keep_fields() {
    let sender = PeerAddr::V4 { ip: [127, 0, 0, 1], port: 8080 };
    let p = Packet::new(Bytes::from_static(b"abc"), sender);
    assert_eq!(&p.payload[..], b"abc");
    assert_eq!(p.sender, sender);
    let u = UnpackedPacket::new(SessionRequest::CreatePeer { id: Id(1) }, sender);
    assert_eq!(u.payload, SessionRequest::CreatePeer { id: Id(1) });
    assert_eq!(u.sender, sender);
}

#[test]
fn router_routes_to_last_registered_channel() {
    let mut router: PacketRouter<&str> = PacketRouter::new();
    assert_eq!(router.route(1), None);
    router.register(1, "first");
    router.register(2, "second");
    assert_eq!(router.route(1), Some(&"first"));
    router.register(1, "replaced");
    assert_eq!(router.route(1), Some(&"replaced"));
    assert_eq!(router.route(2), Some(&"second"));
    assert_eq!(router.route(3), None);
}

#[test]
fn wire_names_are_full_type_paths() {
    assert_eq!(SessionRequest::wire_name(), "aether_void_net::options::SessionRequest");
    assert_eq!(Id::wire_name(), "aether_void_net::options::Id");
    assert_eq!(PeerEndpoints::wire_name(), "aether_void_net::hub::PeerEndpoints");
    assert_eq!(SessionRequest::packet_hash(), type_hash(SessionRequest::wire_name()));
}
