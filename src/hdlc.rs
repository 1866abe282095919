//! High-level Data Link Control (HDLC) framing.

pub mod codec;
pub mod consts;
pub mod crc;
pub mod decoder;
pub mod encoder;
pub mod varint;

use vstd::prelude::*;
use bytes::BytesMut;
use crate::buffer::buffer_bytes;

verus! {

/// One frame: address, control byte and payload.
#[derive(Debug, Clone, PartialEq, Eq)]
pub struct Frame {
    pub address: u32,
    pub control: u8,
    pub data: Vec<u8>,
}

impl Frame {
    /// Decodes one frame from the front of `buf` with a fresh decoder.
    pub fn decode(buf: &mut BytesMut) -> (r: Result<Option<Frame>, decoder::Error>)
        ensures
            ({
                let out = decoder::process_spec(
                    decoder::fresh_model(decoder::DEFAULT_CAPACITY as nat),
                    buffer_bytes(*old(buf)),
                );
                &&& decoder::result_view(r) == out.result
                &&& buffer_bytes(*final(buf)) == buffer_bytes(*old(buf)).skip(out.consumed as int)
            }),
    {
        let mut dec = decoder::Decoder::new();
        dec.process(buf)
    }

    /// Appends the wire form of this frame to `buf`.
    pub fn encode(&self, buf: &mut BytesMut)
        requires
            buffer_bytes(*old(buf)).len() + 2 * self.data@.len() + 22 < isize::MAX,
        ensures
            buffer_bytes(*final(buf)) == buffer_bytes(*old(buf)) + encoder::encoded_frame(*self),
    {
        encoder::encode(buf, self)
    }

    /// Returns the wire form of this frame.
    pub fn encode_bytes(&self) -> (r: BytesMut)
        requires
            2 * self.data@.len() + 22 < isize::MAX,
        ensures
            buffer_bytes(r) == encoder::encoded_frame(*self),
    {
        encoder::encode_bytes(self)
    }
}

} // verus!
