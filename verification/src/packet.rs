//! Packet types: the 64-bit hash that tags each packet with the type of its
//! payload, and the packets handed from the receive loop to their readers.

use vstd::prelude::*;
use vstd::utf8::encode_utf8;

use bytes::Bytes;

use crate::options::PeerAddr;

verus! {

/// Starting value of the 64-bit FNV-1a hash.
pub const FNV_OFFSET_BASIS: u64 = 0xcbf29ce484222325;

/// Multiplier of the 64-bit FNV-1a hash.
pub const FNV_PRIME: u64 = 0x100000001b3;

/// One round of FNV-1a: xor in the byte, then multiply modulo 2^64.
pub open spec fn fnv1a_step(hash: u64, byte: u8) -> u64 {
    ((hash ^ (byte as u64)) as nat * FNV_PRIME as nat % 0x1_0000_0000_0000_0000) as u64
}

/// The 64-bit FNV-1a hash of a byte sequence.
pub open spec fn fnv1a(data: Seq<u8>) -> u64
    decreases data.len(),
{
    if data.len() == 0 {
        FNV_OFFSET_BASIS
    } else {
        fnv1a_step(fnv1a(data.drop_last()), data.last())
    }
}

/// FNV-1a folds in every byte of its input, whatever the length: the hash
/// of no bytes is the offset basis `0xcbf29ce484222325`, and appending a byte
/// xors it into the hash so far and multiplies by the prime `0x100000001b3`
/// modulo 2^64.
pub proof fn law_fnv1a_folds_every_byte(data: Seq<u8>, byte: u8)
    ensures
        fnv1a(Seq::empty()) == 0xcbf29ce484222325u64,
        fnv1a(data.push(byte)) == ((fnv1a(data) ^ (byte as u64)) as nat * 0x100000001b3nat
            % 0x1_0000_0000_0000_0000nat) as u64,
{
    assert(data.push(byte).drop_last() =~= data);
}

/// The hash of a concatenation is the hash of its first part carried on
/// through every byte of the rest, however long either part is.
pub proof fn law_fnv1a_of_concat(prefix: Seq<u8>, rest: Seq<u8>)
    ensures
        fnv1a(prefix + rest) == fnv1a_from(fnv1a(prefix), rest),
    decreases rest.len(),
{
    if rest.len() == 0 {
        assert(prefix + rest =~= prefix);
    } else {
        law_fnv1a_of_concat(prefix, rest.drop_last());
        assert((prefix + rest).drop_last() =~= prefix + rest.drop_last());
    }
}

/// The FNV-1a hash carried from `start` through the bytes of `rest`, each
/// xored in and then multiplied by the prime modulo 2^64.
pub open spec fn fnv1a_from(start: u64, rest: Seq<u8>) -> u64
    decreases rest.len(),
{
    if rest.len() == 0 {
        start
    } else {
        ((fnv1a_from(start, rest.drop_last()) ^ (rest.last() as u64)) as nat * 0x100000001b3nat
            % 0x1_0000_0000_0000_0000nat) as u64
    }
}

/// The 64-bit FNV-1a hash of `data`.
pub fn fnv1a_hash(data: &[u8]) -> (hash: u64)
    ensures
        hash == fnv1a(data@),
{
    let mut hash: u64 = FNV_OFFSET_BASIS;
    let mut i: usize = 0;
    while i < data.len()
        invariant
            i <= data@.len(),
            hash == fnv1a(data@.take(i as int)),
        decreases data@.len() - i,
    {
        proof {
            assert(data@.take(i + 1).drop_last() =~= data@.take(i as int));
        }
        hash ^= data[i] as u64;
        hash = hash.wrapping_mul(FNV_PRIME);
        i = i + 1;
    }
    proof {
        assert(data@.take(data@.len() as int) =~= data@);
    }
    hash
}

/// The packet hash of a type name: the FNV-1a hash of its UTF-8 bytes.
pub fn type_hash(name: &str) -> (hash: u64)
    ensures
        hash == fnv1a(encode_utf8(name@)),
{
    fnv1a_hash(name.as_bytes())
}

/// Types whose values travel as packets. Each packet is tagged with the
/// FNV-1a hash of the name of its payload's type, by which a receiver routes it.
///
/// A type is given its tag by implementing this trait with the name to hash;
/// the library's message types use their full type paths, such as
/// `aether_void_net::options::SessionRequest`. A type that is to be sent and
/// received implements it in the same way, and keeps its name when it moves,
/// so that its tag stays what peers expect.
pub trait PacketType {
    /// The name of the type as it is hashed into the packet tag.
    spec fn spec_wire_name() -> Seq<char>;

    /// The name of the type as it is hashed into the packet tag.
    fn wire_name() -> (name: &'static str)
        ensures
            name@ == Self::spec_wire_name(),
    ;

    /// The packet hash of the type: the FNV-1a hash of the UTF-8 bytes of its name.
    fn packet_hash() -> (hash: u64)
        ensures
            hash == fnv1a(encode_utf8(Self::spec_wire_name())),
    {
        type_hash(Self::wire_name())
    }

    /// The packet hash of the value's type.
    fn packet_hash_self(&self) -> (hash: u64)
        ensures
            hash == fnv1a(encode_utf8(Self::spec_wire_name())),
    {
        Self::packet_hash()
    }
}

/// A received packet whose payload is still serialized, with its sender.
pub struct Packet {
    pub payload: Bytes,
    pub sender: PeerAddr,
}

impl Packet {
    /// Pairs a payload with its sender.
    pub fn new(payload: Bytes, sender: PeerAddr) -> (p: Self)
        ensures
            p.payload == payload,
            p.sender == sender,
    {
        Packet { payload, sender }
    }
}

/// A received packet whose payload has been deserialized, with its sender.
pub struct UnpackedPacket<T> {
    pub payload: T,
    pub sender: PeerAddr,
}

impl<T> UnpackedPacket<T> {
    /// Pairs a payload with its sender.
    pub fn new(payload: T, sender: PeerAddr) -> (p: Self)
        ensures
            p.payload == payload,
            p.sender == sender,
    {
        UnpackedPacket { payload, sender }
    }
}

} // verus!
