//! Control library for the Maestro RPC service of the Google Pixel Buds Pro:
//! HDLC framing, the device addressing scheme, RPC packets, the
//! call-dispatch logic of the RPC client, typed settings, and the framing of
//! the Google Fast Pair message stream.

pub mod buffer;
pub mod gfps;
pub mod hdlc;
pub mod protocol;
pub mod pwrpc;
pub mod service;
