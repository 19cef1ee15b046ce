//! The decoding step of a node's receive loop: each datagram read into the
//! receive buffer is cut off the front of that buffer and split into its
//! packet type and its payload.

use vstd::prelude::*;
use vstd::bytes::{
    lemma_auto_spec_u64_to_from_le_bytes, spec_u64_from_le_bytes, spec_u64_to_le_bytes,
    u64_from_le_bytes,
};

use std::collections::HashMap;

use bytes::{Bytes, BytesMut};

use crate::utils::framed;

verus! {

#[verifier::external_type_specification]
#[verifier::external_body]
pub struct ExBytes(bytes::Bytes);

#[verifier::external_type_specification]
#[verifier::external_body]
pub struct ExBytesMut(bytes::BytesMut);

/// The bytes that a `bytes::Bytes` holds.
pub uninterp spec fn bytes_contents(b: Bytes) -> Seq<u8>;

/// The bytes that a `bytes::BytesMut` holds.
pub uninterp spec fn bytes_mut_contents(b: BytesMut) -> Seq<u8>;

/// `BytesMut::split_to`: the first `at` bytes move into the returned buffer,
/// the rest stay. The source panics when `at` exceeds the length.
#[verifier::external_body]
fn bytes_mut_split_to(buf: &mut BytesMut, at: usize) -> (head: BytesMut)
    requires
        at <= bytes_mut_contents(*old(buf)).len(),
    ensures
        bytes_mut_contents(head) == bytes_mut_contents(*old(buf)).take(at as int),
        bytes_mut_contents(*final(buf)) == bytes_mut_contents(*old(buf)).skip(at as int),
{
    buf.split_to(at)
}

/// `BytesMut::len`: the number of bytes the buffer holds.
#[verifier::external_body]
fn bytes_mut_len(buf: &BytesMut) -> (n: usize)
    ensures
        n == bytes_mut_contents(*buf).len(),
{
    buf.len()
}

/// `BytesMut::freeze`: the same bytes, as an immutable `Bytes`.
#[verifier::external_body]
fn bytes_mut_freeze(buf: BytesMut) -> (frozen: Bytes)
    ensures
        bytes_contents(frozen) == bytes_mut_contents(buf),
{
    buf.freeze()
}

/// `Bytes::split_off`: the bytes from `at` on move into the returned buffer,
/// the first `at` stay. The source panics when `at` exceeds the length.
#[verifier::external_body]
fn bytes_split_off(b: &mut Bytes, at: usize) -> (tail: Bytes)
    requires
        at <= bytes_contents(*old(b)).len(),
    ensures
        bytes_contents(*final(b)) == bytes_contents(*old(b)).take(at as int),
        bytes_contents(tail) == bytes_contents(*old(b)).skip(at as int),
{
    b.split_off(at)
}

/// `Bytes` dereferenced to a slice: the slice holds the same bytes.
#[verifier::external_body]
fn bytes_as_slice(b: &Bytes) -> (s: &[u8])
    ensures
        s@ == bytes_contents(*b),
{
    core::ops::Deref::deref(b)
}

/// A packet as read off the wire: shorter than 8 bytes it is no packet;
/// otherwise its first 8 bytes are the packet type, little-endian, and the
/// rest is the payload.
pub open spec fn parse_packet(data: Seq<u8>) -> Option<(u64, Seq<u8>)> {
    if data.len() < 8 {
        None
    } else {
        Some((spec_u64_from_le_bytes(data.take(8)), data.skip(8)))
    }
}

/// Takes the datagram of `len` bytes that was just read into the front of
/// `buf`.
///
/// The first `len` bytes are cut off the front of `buf` in every case. A
/// datagram shorter than 8 bytes is dropped; any other is returned as its
/// packet type and its payload.
pub fn take_packet(buf: &mut BytesMut, len: usize) -> (r: Option<(u64, Bytes)>)
    requires
        len <= bytes_mut_contents(*old(buf)).len(),
    ensures
        bytes_mut_contents(*final(buf)) == bytes_mut_contents(*old(buf)).skip(len as int),
        r is None <==> len < 8,
        match r {
            None => true,
            Some((packet_type, payload)) => parse_packet(bytes_mut_contents(*old(buf)).take(len as int))
                == Some((packet_type, bytes_contents(payload))),
        },
{
    let ghost data = bytes_mut_contents(*buf).take(len as int);
    let mut incoming = bytes_mut_freeze(bytes_mut_split_to(buf, len));
    if len < 8 {
        return None;
    }
    let payload = bytes_split_off(&mut incoming, 8);
    let head = bytes_as_slice(&incoming);
    let packet_type = u64_from_le_bytes(head);
    proof {
        assert(data.take(8) =~= head@);
    }
    Some((packet_type, payload))
}

/// Why a received datagram could not be taken off the receive buffer.
#[derive(Debug, Clone, Copy, PartialEq, Eq, Structural)]
pub enum ReceiveError {
    /// The reported length is longer than what the buffer holds.
    LengthExceedsBuffer,
}

/// Takes the datagram of `len` bytes that was just read into the front of
/// `buf`, as `take_packet` does, after checking that `buf` holds that many
/// bytes; when it does not, `buf` is left as it is and the error returned.
pub fn take_received(buf: &mut BytesMut, len: usize) -> (r: Result<Option<(u64, Bytes)>, ReceiveError>)
    ensures
        len > bytes_mut_contents(*old(buf)).len() ==> r == Err::<Option<(u64, Bytes)>, ReceiveError>(
            ReceiveError::LengthExceedsBuffer,
        ) && bytes_mut_contents(*final(buf)) == bytes_mut_contents(*old(buf)),
        len <= bytes_mut_contents(*old(buf)).len() ==> {
            &&& r is Ok
            &&& bytes_mut_contents(*final(buf)) == bytes_mut_contents(*old(buf)).skip(len as int)
            &&& (r->Ok_0 is None <==> len < 8)
            &&& (r matches Ok(Some((packet_type, payload))) ==> parse_packet(
                bytes_mut_contents(*old(buf)).take(len as int),
            ) == Some((packet_type, bytes_contents(payload))))
        },
{
    if len > bytes_mut_len(buf) {
        return Err(ReceiveError::LengthExceedsBuffer);
    }
    Ok(take_packet(buf, len))
}

/// The channels of a node's receive loop, one per packet type: each packet
/// goes to the channel registered for its type, and a packet of a type with
/// no channel is dropped.
pub struct PacketRouter<S> {
    channels: HashMap<u64, S>,
}

impl<S> View for PacketRouter<S> {
    type V = Map<u64, S>;

    closed spec fn view(&self) -> Map<u64, S> {
        self.channels@
    }
}

impl<S> PacketRouter<S> {
    /// A router with no channel.
    pub fn new() -> (router: Self)
        ensures
            router@ == Map::<u64, S>::empty(),
    {
        PacketRouter { channels: HashMap::new() }
    }

    /// Registers `sender` as the channel of `packet_type`, replacing the
    /// channel registered before for that type.
    pub fn register(&mut self, packet_type: u64, sender: S)
        ensures
            final(self)@ == old(self)@.insert(packet_type, sender),
    {
        broadcast use vstd::std_specs::hash::group_hash_axioms;

        self.channels.insert(packet_type, sender);
    }

    /// The channel registered for `packet_type`, if any.
    pub fn route(&self, packet_type: u64) -> (r: Option<&S>)
        ensures
            match r {
                Some(sender) => self@.contains_key(packet_type) && *sender == self@[packet_type],
                None => !self@.contains_key(packet_type),
            },
    {
        broadcast use vstd::std_specs::hash::group_hash_axioms;

        self.channels.get(&packet_type)
    }
}

/// A packet goes to the channel last registered for its type; registering a
/// channel for one type leaves where packets of every other type go.
pub proof fn law_route_after_register<S>(
    channels: Map<u64, S>,
    packet_type: u64,
    sender: S,
    other: u64,
)
    ensures
        channels.insert(packet_type, sender).contains_key(packet_type),
        channels.insert(packet_type, sender)[packet_type] == sender,
        other != packet_type ==> (channels.insert(packet_type, sender).contains_key(other)
            == channels.contains_key(other) && channels.insert(packet_type, sender)[other]
            == channels[other]),
{
}

/// A framed packet reads back as the packet type and the body it was framed
/// from.
pub proof fn law_framed_packet_parses(packet_type: u64, body: Seq<u8>)
    ensures
        parse_packet(framed(packet_type, body)) == Some((packet_type, body)),
{
    lemma_auto_spec_u64_to_from_le_bytes();
    let data = framed(packet_type, body);
    assert(data.take(8) =~= spec_u64_to_le_bytes(packet_type));
    assert(data.skip(8) =~= body);
}

/// Every datagram that reads as a packet is the framing of the packet type
/// and the payload it reads as.
pub proof fn law_parsed_packet_reframes(data: Seq<u8>)
    ensures
        parse_packet(data) matches Some((packet_type, payload)) ==> framed(packet_type, payload)
            == data,
{
    if data.len() >= 8 {
        lemma_auto_spec_u64_to_from_le_bytes();
        assert(data.take(8).len() == 8);
        assert(spec_u64_to_le_bytes(spec_u64_from_le_bytes(data.take(8))) == data.take(8));
        assert(data.take(8) + data.skip(8) =~= data);
    }
}

} // verus!
