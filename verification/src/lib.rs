//! Peer-to-peer UDP networking primitives: node configuration, packet
//! framing with a type hash, session bookkeeping, and the decoding step of the
//! receive loop.

pub mod hub;
pub mod node;
pub mod options;
pub mod packet;
pub mod text;
pub mod utils;
