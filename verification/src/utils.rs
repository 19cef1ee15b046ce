//! Resolution of configuration choices, and the framing of outgoing packets.

use vstd::prelude::*;
use vstd::bytes::{spec_u64_to_le_bytes, spec_u64_to_le_bytes_to_open, u64_to_le_bytes};

use std::collections::HashMap;

use crate::hub::{insert_first, insert_pairs, pair_count, PeerEndpoints};
use crate::options::{BufSize, ChannelCap, Id, NetAddr, NetConfig, NetPort, NodeConfig};
use crate::text::{decimal, push_decimal};

verus! {

/// Receive buffer size used when none is chosen.
pub const DEF_BUFFER_SIZE: usize = 65536;

/// Host a node binds to when none is chosen.
pub const DEF_NET_ADDR: &'static str = "0.0.0.0";

/// Port a node binds to when none is chosen.
pub const DEF_NET_PORT: u16 = 8080;

/// Channel capacity used when none is chosen.
pub const DEF_CHANNEL_CAP: usize = 256;

/// The port that a choice stands for.
pub open spec fn port_choice(port: NetPort) -> u16 {
    match port {
        NetPort::Default => DEF_NET_PORT,
        NetPort::New(p) => p,
    }
}

/// The host text that a choice stands for.
pub open spec fn host_choice(addr: NetAddr) -> Seq<char> {
    match addr {
        NetAddr::Default => DEF_NET_ADDR@,
        NetAddr::New(host) => host@,
    }
}

/// The receive buffer size that a choice stands for.
pub open spec fn buf_size_choice(buf_size: BufSize) -> usize {
    match buf_size {
        BufSize::Default => DEF_BUFFER_SIZE,
        BufSize::New(size) => size,
    }
}

/// The channel capacity that a choice stands for.
pub open spec fn channel_cap_choice(channel: ChannelCap) -> usize {
    match channel {
        ChannelCap::Default => DEF_CHANNEL_CAP,
        ChannelCap::New(c) => c,
    }
}

/// The text `host:port` for a host choice and a port.
pub open spec fn address_text(addr: NetAddr, port: u16) -> Seq<char> {
    host_choice(addr) + seq![':'] + decimal(port as nat)
}

/// The bytes of a packet on the wire: the packet type as 8 little-endian
/// bytes, followed by the body.
pub open spec fn framed(packet_type: u64, body: Seq<u8>) -> Seq<u8> {
    spec_u64_to_le_bytes(packet_type) + body
}

/// An explicit choice resolves to exactly the value chosen, whatever it is;
/// a default choice resolves to port 8080, host `0.0.0.0`, channel capacity
/// 256 and buffer size 65536. The address text is the host, a colon, and the
/// port in decimal.
pub proof fn law_choices_resolve(port: u16, size: usize, host: String)
    ensures
        port_choice(NetPort::New(port)) == port,
        port_choice(NetPort::Default) == 8080u16,
        buf_size_choice(BufSize::New(size)) == size,
        buf_size_choice(BufSize::Default) == 65536usize,
        channel_cap_choice(ChannelCap::New(size)) == size,
        channel_cap_choice(ChannelCap::Default) == 256usize,
        address_text(NetAddr::New(host), port) == host@ + seq![':'] + decimal(port as nat),
        address_text(NetAddr::Default, port) == seq!['0', '.', '0', '.', '0', '.', '0', ':']
            + decimal(port as nat),
{
    reveal_strlit("0.0.0.0");
    assert(address_text(NetAddr::Default, port) =~= seq!['0', '.', '0', '.', '0', '.', '0', ':']
        + decimal(port as nat));
}

/// A framed packet is 8 bytes longer than its body: byte `i` of the first
/// 8 is bits `8*i` to `8*i+7` of the packet type (least significant byte
/// first), and the body follows unchanged.
pub proof fn law_framed_layout(packet_type: u64, body: Seq<u8>)
    ensures
        framed(packet_type, body).len() == 8 + body.len(),
        framed(packet_type, body)[0] == (packet_type & 0xff) as u8,
        framed(packet_type, body)[1] == ((packet_type >> 8) & 0xff) as u8,
        framed(packet_type, body)[2] == ((packet_type >> 16) & 0xff) as u8,
        framed(packet_type, body)[3] == ((packet_type >> 24) & 0xff) as u8,
        framed(packet_type, body)[4] == ((packet_type >> 32) & 0xff) as u8,
        framed(packet_type, body)[5] == ((packet_type >> 40) & 0xff) as u8,
        framed(packet_type, body)[6] == ((packet_type >> 48) & 0xff) as u8,
        framed(packet_type, body)[7] == ((packet_type >> 56) & 0xff) as u8,
        framed(packet_type, body).skip(8) == body,
{
    spec_u64_to_le_bytes_to_open(packet_type);
    assert(framed(packet_type, body).skip(8) =~= body);
}

/// Resolves every choice of `net_config` into a node configuration.
pub fn create_node_config(net_config: NetConfig) -> (c: NodeConfig)
    ensures
        c.net_addr@ == address_text(net_config.net_addr, port_choice(net_config.net_port)),
        c.channel_cap == channel_cap_choice(net_config.channel_cap),
        c.buf_size == buf_size_choice(net_config.buf_size),
{
    let target_port = match_port(net_config.net_port);
    let net_addr = match_addr(net_config.net_addr, target_port);
    let channel_cap = match_channel_cap(net_config.channel_cap);
    let buf_size = match_buf_size(net_config.buf_size);
    NodeConfig::new(net_addr, channel_cap, buf_size)
}

/// The port that a choice stands for.
pub fn match_port(port: NetPort) -> (p: u16)
    ensures
        p == port_choice(port),
{
    match port {
        NetPort::Default => DEF_NET_PORT,
        NetPort::New(p) => p,
    }
}

/// The text `host:port` for a host choice and a port, with the port in decimal.
pub fn match_addr(addr: NetAddr, port: u16) -> (s: String)
    ensures
        s@ == address_text(addr, port),
{
    let mut s = match addr {
        NetAddr::Default => DEF_NET_ADDR.to_owned(),
        NetAddr::New(ad) => ad,
    };
    proof {
        reveal_strlit(":");
    }
    s.append(":");
    push_decimal(&mut s, port as u32);
    s
}

/// The receive buffer size that a choice stands for.
pub fn match_buf_size(buf_size: BufSize) -> (n: usize)
    ensures
        n == buf_size_choice(buf_size),
{
    match buf_size {
        BufSize::Default => DEF_BUFFER_SIZE,
        BufSize::New(size) => size,
    }
}

/// The channel capacity that a choice stands for.
pub fn match_channel_cap(channel: ChannelCap) -> (n: usize)
    ensures
        n == channel_cap_choice(channel),
{
    match channel {
        ChannelCap::Default => DEF_CHANNEL_CAP,
        ChannelCap::New(c) => c,
    }
}

/// Prefixes `msg` with `packet_type` as 8 little-endian bytes.
pub fn mark_packet(msg: &[u8], packet_type: u64) -> (out: Vec<u8>)
    ensures
        out@ == framed(packet_type, msg@),
        out@.len() == 8 + msg@.len(),
{
    let mut out = u64_to_le_bytes(packet_type);
    let ghost prefix = out@;
    let mut i: usize = 0;
    while i < msg.len()
        invariant
            i <= msg@.len(),
            prefix == spec_u64_to_le_bytes(packet_type),
            prefix.len() == 8,
            out@ == prefix + msg@.subrange(0, i as int),
        decreases msg@.len() - i,
    {
        out.push(msg[i]);
        i = i + 1;
        proof {
            assert(msg@.subrange(0, i as int) =~= msg@.subrange(0, i - 1).push(msg@[i - 1]));
        }
    }
    proof {
        assert(msg@.subrange(0, msg@.len() as int) =~= msg@);
    }
    out
}

/// A table of the pairs of `id` and `endpoints`, inserted in order; the
/// longer slice's surplus is ignored, and a later pair for an identifier
/// replaces an earlier one.
pub fn create_sessions_map(id: &[Id], endpoints: &[PeerEndpoints]) -> (sessions: HashMap<
    u32,
    PeerEndpoints,
>)
    ensures
        sessions@ == insert_pairs(Map::empty(), id@, endpoints@),
{
    broadcast use vstd::std_specs::hash::group_hash_axioms;

    let mut sessions_map: HashMap<u32, PeerEndpoints> = HashMap::new();
    let n = if id.len() <= endpoints.len() {
        id.len()
    } else {
        endpoints.len()
    };
    let mut i: usize = 0;
    while i < n
        invariant
            n == pair_count(id@, endpoints@),
            i <= n,
            sessions_map@ == insert_first(Map::empty(), id@, endpoints@, i as nat),
        decreases n - i,
    {
        sessions_map.insert(id[i].0, endpoints[i]);
        i = i + 1;
    }
    sessions_map
}

} // verus!
