//! Configuration choices of a node, peer identifiers and session requests.

use vstd::prelude::*;

use crate::packet::PacketType;

verus! {

/// The address a node binds to: the default one or an explicit host.
#[derive(Debug, Clone, PartialEq, Eq)]
pub enum NetAddr {
    Default,
    New(String),
}

/// The size of the receive buffer: the default one or an explicit size.
#[derive(Debug, Clone, Copy, PartialEq, Eq)]
pub enum BufSize {
    Default,
    New(usize),
}

/// The port a node binds to: the default one or an explicit port.
#[derive(Debug, Clone, Copy, PartialEq, Eq)]
pub enum NetPort {
    Default,
    New(u16),
}

/// The capacity of a message channel: the default one or an explicit capacity.
#[derive(Debug, Clone, Copy, PartialEq, Eq)]
pub enum ChannelCap {
    Default,
    New(usize),
}

/// A resolved node configuration: the `host:port` text to bind to, the
/// channel capacity and the receive buffer size.
#[derive(Debug, Clone, PartialEq, Eq)]
pub struct NodeConfig {
    pub net_addr: String,
    pub channel_cap: usize,
    pub buf_size: usize,
}

impl NodeConfig {
    /// Builds a configuration from its three parts.
    pub fn new(net_addr: String, channel_cap: usize, buf_size: usize) -> (c: Self)
        ensures
            c == (NodeConfig { net_addr, channel_cap, buf_size }),
    {
        NodeConfig { net_addr, channel_cap, buf_size }
    }
}

/// The choices from which a node configuration is resolved.
#[derive(Debug, Clone, PartialEq, Eq)]
pub struct NetConfig {
    pub net_port: NetPort,
    pub channel_cap: ChannelCap,
    pub net_addr: NetAddr,
    pub buf_size: BufSize,
}

impl NetConfig {
    /// Builds a set of choices from its four parts.
    pub fn new(net_port: NetPort, channel_cap: ChannelCap, net_addr: NetAddr, buf_size: BufSize) -> (c: Self)
        ensures
            c == (NetConfig { net_port, channel_cap, net_addr, buf_size }),
    {
        NetConfig { net_port, channel_cap, net_addr, buf_size }
    }

    /// True of the configuration in which every choice is the default one.
    pub open spec fn is_all_default(self) -> bool {
        &&& self.net_port == NetPort::Default
        &&& self.channel_cap == ChannelCap::Default
        &&& self.net_addr == NetAddr::Default
        &&& self.buf_size == BufSize::Default
    }
}

impl Default for NetConfig {
    /// Every choice is the default one.
    fn default() -> (c: Self)
        ensures
            c.is_all_default(),
    {
        Self::new(NetPort::Default, ChannelCap::Default, NetAddr::Default, BufSize::Default)
    }
}

/// The identifier of a peer session.
#[derive(PartialEq, Eq, Structural, Hash, Debug, Clone, Copy)]
pub struct Id(pub u32);

impl Id {
    /// Wraps a number as an identifier.
    pub fn new(id: u32) -> (r: Self)
        ensures
            r == Id(id),
    {
        Id(id)
    }
}

impl PacketType for Id {
    open spec fn spec_wire_name() -> Seq<char> {
        "aether_void_net::options::Id"@
    }

    fn wire_name() -> (name: &'static str) {
        "aether_void_net::options::Id"
    }
}

/// A request that a peer sends to a session hub.
#[derive(PartialEq, Eq, Structural, Hash, Debug, Clone, Copy)]
pub enum SessionRequest {
    CreatePeer { id: Id },
    Connect { id: Id },
}

impl PacketType for SessionRequest {
    open spec fn spec_wire_name() -> Seq<char> {
        "aether_void_net::options::SessionRequest"@
    }

    fn wire_name() -> (name: &'static str) {
        "aether_void_net::options::SessionRequest"
    }
}

/// A socket address, IPv4 or IPv6, as plain values: the address octets in
/// network order, the port, and for IPv6 the flow information and scope.
#[allow(inconsistent_fields)]
#[derive(PartialEq, Eq, Hash, Debug, Clone, Copy)]
pub enum PeerAddr {
    V4 { ip: [u8; 4], port: u16 },
    V6 { ip: [u8; 16], port: u16, flowinfo: u32, scope_id: u32 },
}

} // verus!
