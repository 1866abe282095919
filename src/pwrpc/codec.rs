//! A codec for RPC packets together with the address of their frame.

use vstd::prelude::*;
use bytes::BytesMut;
use crate::buffer::buffer_bytes;
use crate::hdlc::{self, Frame};
use crate::hdlc::codec::frame_or_none;
use crate::hdlc::decoder::{process_spec, DecoderModel, fresh_model, DEFAULT_CAPACITY};
use crate::hdlc::encoder::{body_of, checked, wire_of};
use super::types::RpcPacket;

verus! {

/// An RPC packet and the address of the frame that carries it.
#[derive(Debug, Clone, PartialEq)]
pub struct Packet {
    pub address: u32,
    pub rpc: RpcPacket,
}

/// What a decoding outcome yields: the address and payload of a frame with
/// control byte 0x03; other frames and errors yield nothing.
pub open spec fn addressed_bytes(r: Result<Option<hdlc::decoder::FrameView>, hdlc::decoder::Error>) -> Option<(u32, Seq<u8>)> {
    match frame_or_none(r) {
        Some(f) => if f.control == 0x03 { Some((f.address, f.data)) } else { None },
        None => None,
    }
}

pub struct Codec {
    hdlc: hdlc::codec::Codec,
}

impl Codec {
    pub closed spec fn decoder(&self) -> DecoderModel {
        self.hdlc.decoder()
    }

    pub fn new() -> (r: Self)
        ensures
            r.decoder() == fresh_model(DEFAULT_CAPACITY as nat),
    {
        Codec { hdlc: hdlc::codec::Codec::new() }
    }

    /// Decodes the next frame from the front of `src` and yields its address
    /// and the encoded RPC packet it carries; frames with another control
    /// byte are dropped.
    pub fn decode_frame(&mut self, src: &mut BytesMut) -> (r: Option<(u32, Vec<u8>)>)
        ensures
            ({
                let out = process_spec(old(self).decoder(), buffer_bytes(*old(src)));
                &&& addressed_bytes(out.result) == match r {
                    Some((a, d)) => Some((a, d@)),
                    None => None::<(u32, Seq<u8>)>,
                }
                &&& final(self).decoder() == out.model
                &&& buffer_bytes(*final(src)) == buffer_bytes(*old(src)).skip(out.consumed as int)
            }),
    {
        match self.hdlc.decode(src) {
            Some(frame) => {
                if frame.control != 0x03 {
                    None
                } else {
                    Some((frame.address, frame.data))
                }
            },
            None => None,
        }
    }

    /// Appends to `dst` the frame with address `address` that carries the
    /// encoded packet `payload`.
    pub fn encode_packet(&mut self, address: u32, payload: Vec<u8>, dst: &mut BytesMut)
        requires
            buffer_bytes(*old(dst)).len() + 2 * payload@.len() + 22 < isize::MAX,
        ensures
            final(self).decoder() == old(self).decoder(),
            buffer_bytes(*final(dst)) == buffer_bytes(*old(dst)) + wire_of(checked(body_of(address, 0x03, payload@))),
    {
        let frame = Frame { address, control: 0x03, data: payload };
        self.hdlc.encode(&frame, dst);
    }
}

impl Default for Codec {
    fn default() -> (r: Self)
        ensures
            r.decoder() == fresh_model(DEFAULT_CAPACITY as nat),
    {
        Codec::new()
    }
}

} // verus!
