//! RPC layer: identifiers, status codes, packets, and the client's
//! call-dispatch logic.

pub mod client;
pub mod codec;
pub mod id;
pub mod status;
pub mod types;
pub mod utils;
