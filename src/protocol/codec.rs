//! The wire codec: HDLC frames with control byte 0x03 that carry encoded RPC
//! packets, addressed by the packet's channel.

use vstd::prelude::*;
use bytes::BytesMut;
use crate::buffer::buffer_bytes;
use crate::hdlc::{self, Frame};
use crate::hdlc::codec::frame_or_none;
use crate::hdlc::decoder::{process_spec, DecoderModel, fresh_model, DEFAULT_CAPACITY};
use crate::hdlc::encoder::{body_of, checked, wire_of};
use crate::pwrpc::status::{Error, Status};
use super::addr::{self, address_of_peers, channel_peers};

verus! {

/// The control byte of frames that carry RPC packets.
pub const RPC_CONTROL: u8 = 0x03;

/// What a decoding outcome yields: the payload of a frame that carries an
/// RPC packet; other frames and errors yield nothing.
pub open spec fn packet_bytes(r: Result<Option<hdlc::decoder::FrameView>, hdlc::decoder::Error>) -> Option<Seq<u8>> {
    match frame_or_none(r) {
        Some(f) => if f.control == 0x03 { Some(f.data) } else { None },
        None => None,
    }
}

/// The wire form of the frame that carries `payload` on channel `channel`.
pub open spec fn packet_wire(channel: u32, payload: Seq<u8>) -> Option<Seq<u8>> {
    match channel_peers(channel) {
        Some((l, p)) => Some(wire_of(checked(body_of(address_of_peers(l, p), 0x03, payload)))),
        None => None,
    }
}

pub struct Codec {
    hdlc: hdlc::codec::Codec,
}

impl Codec {
    pub closed spec fn decoder(&self) -> DecoderModel {
        self.hdlc.decoder()
    }

    pub fn new() -> (r: Self)
        ensures
            r.decoder() == fresh_model(DEFAULT_CAPACITY as nat),
    {
        Codec { hdlc: hdlc::codec::Codec::new() }
    }

    /// Decodes the next frame from the front of `src` and yields the encoded
    /// RPC packet it carries; frames with another control byte are dropped.
    pub fn decode_frame(&mut self, src: &mut BytesMut) -> (r: Option<Vec<u8>>)
        ensures
            ({
                let out = process_spec(old(self).decoder(), buffer_bytes(*old(src)));
                &&& packet_bytes(out.result) == match r {
                    Some(d) => Some(d@),
                    None => None::<Seq<u8>>,
                }
                &&& final(self).decoder() == out.model
                &&& buffer_bytes(*final(src)) == buffer_bytes(*old(src)).skip(out.consumed as int)
            }),
    {
        match self.hdlc.decode(src) {
            Some(frame) => {
                if frame.control != RPC_CONTROL {
                    None
                } else {
                    Some(frame.data)
                }
            },
            None => None,
        }
    }

    /// Appends to `dst` the frame that carries the encoded packet `payload`
    /// on channel `channel_id`; a channel outside the table is refused with
    /// `InvalidArgument` and nothing is written.
    pub fn encode_packet(&mut self, channel_id: u32, payload: Vec<u8>, dst: &mut BytesMut) -> (r: Result<(), Error>)
        requires
            buffer_bytes(*old(dst)).len() + 2 * payload@.len() + 22 < isize::MAX,
        ensures
            final(self).decoder() == old(self).decoder(),
            match packet_wire(channel_id, payload@) {
                Some(w) => r is Ok && buffer_bytes(*final(dst)) == buffer_bytes(*old(dst)) + w,
                None => (r matches Err(e) && e.spec_code() == Status::InvalidArgument)
                    && buffer_bytes(*final(dst)) == buffer_bytes(*old(dst)),
            },
    {
        match addr::address_for_channel(channel_id) {
            Some(address) => {
                let frame = Frame { address: address.value(), control: RPC_CONTROL, data: payload };
                self.hdlc.encode(&frame, dst);
                Ok(())
            },
            None => Err(Error::invalid_argument("no address for this channel")),
        }
    }
}

impl Default for Codec {
    fn default() -> (r: Self)
        ensures
            r.decoder() == fresh_model(DEFAULT_CAPACITY as nat),
    {
        Codec::new()
    }
}

} // verus!
