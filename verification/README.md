# aether_void_net

A peer-to-peer UDP networking library. Every packet on the wire is the
64-bit FNV-1a hash of its payload's type name, as 8 little-endian bytes,
followed by the serialized payload. A node's receive loop cuts each datagram
off its receive buffer, drops it when it is shorter than 8 bytes, otherwise
splits it into type and payload and hands it to the channel registered for
that type. A type gets its tag by implementing `PacketType` with the name to
hash. A session hub keeps the endpoints of each
peer and answers requests to create a peer or to connect to one.

Layout:

- `src/` is the verified library: configuration resolution (`options`,
  `utils`), decimal text (`text`), type hashes and packets (`packet`), the
  decoding and routing step of the receive loop (`node`), and the session
  table with its decisions (`hub`).
- `app/` is the asynchronous side: the tokio UDP socket and channels, the
  lock around the session hub, and the rkyv-serializable forms of the
  message types.
- `tests/` exercises the library on concrete values.
