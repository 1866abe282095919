//! Frame codec over a byte buffer: decoding errors are dropped at the frame
//! boundary and decoding goes on.

use vstd::prelude::*;
use bytes::BytesMut;
use crate::buffer::buffer_bytes;
use super::decoder::{self, Decoder};
use super::encoder;
use super::Frame;

verus! {

#[verifier::external_type_specification]
#[verifier::external_body]
pub struct ExIoError(std::io::Error);

pub enum DecoderError {
    Io(std::io::Error),
    Decoder(decoder::Error),
}

impl From<std::io::Error> for DecoderError {
    fn from(value: std::io::Error) -> (r: Self) {
        DecoderError::Io(value)
    }
}

impl vstd::std_specs::convert::FromSpecImpl<std::io::Error> for DecoderError {
    open spec fn obeys_from_spec() -> bool {
        true
    }

    open spec fn from_spec(v: std::io::Error) -> Self {
        DecoderError::Io(v)
    }
}

impl From<decoder::Error> for DecoderError {
    fn from(value: decoder::Error) -> (r: Self) {
        DecoderError::Decoder(value)
    }
}

impl vstd::std_specs::convert::FromSpecImpl<decoder::Error> for DecoderError {
    open spec fn obeys_from_spec() -> bool {
        true
    }

    open spec fn from_spec(v: decoder::Error) -> Self {
        DecoderError::Decoder(v)
    }
}

/// Frame codec: a decoder that keeps partial frames between calls.
pub struct Codec {
    dec: Decoder,
}

/// What `Codec::decode` yields for one decoding outcome: the frame, if any;
/// a decoding error yields nothing.
pub open spec fn frame_or_none(r: Result<Option<decoder::FrameView>, decoder::Error>) -> Option<decoder::FrameView> {
    match r {
        Ok(x) => x,
        Err(_) => None,
    }
}

impl Codec {
    /// The state of the decoder inside.
    pub closed spec fn decoder(&self) -> decoder::DecoderModel {
        self.dec@
    }

    pub fn new() -> (r: Self)
        ensures
            r.decoder() == decoder::fresh_model(decoder::DEFAULT_CAPACITY as nat),
    {
        Codec { dec: Decoder::new() }
    }

    pub fn with_capacity(cap: usize) -> (r: Self)
        ensures
            r.decoder() == decoder::fresh_model(cap as nat),
    {
        Codec { dec: Decoder::with_capacity(cap) }
    }

    /// Decodes the next frame from the front of `src`; a decoding error
    /// yields `None`, as does input that holds no complete frame.
    pub fn decode(&mut self, src: &mut BytesMut) -> (r: Option<Frame>)
        ensures
            ({
                let out = decoder::process_spec(old(self).decoder(), buffer_bytes(*old(src)));
                &&& frame_or_none(out.result) == match r {
                    Some(f) => Some(decoder::frame_view(f)),
                    None => None::<decoder::FrameView>,
                }
                &&& final(self).decoder() == out.model
                &&& buffer_bytes(*final(src)) == buffer_bytes(*old(src)).skip(out.consumed as int)
            }),
    {
        match self.dec.process(src) {
            Ok(x) => x,
            Err(_) => None,
        }
    }

    /// Appends the wire form of `frame` to `dst`.
    pub fn encode(&mut self, frame: &Frame, dst: &mut BytesMut)
        requires
            buffer_bytes(*old(dst)).len() + 2 * frame.data@.len() + 22 < isize::MAX,
        ensures
            buffer_bytes(*final(dst)) == buffer_bytes(*old(dst)) + encoder::encoded_frame(*frame),
            final(self).decoder() == old(self).decoder(),
    {
        encoder::encode(dst, frame)
    }
}

impl Default for Codec {
    fn default() -> (r: Self)
        ensures
            r.decoder() == decoder::fresh_model(decoder::DEFAULT_CAPACITY as nat),
    {
        Codec::new()
    }
}

} // verus!
