//! The Maestro protocol: device addressing, the wire codec of RPC packets,
//! and finding the channel of a session.

pub mod addr;
pub mod codec;
pub mod resolve;
