//! Frame decoder: a resumable state machine over the incoming bytes.

use vstd::prelude::*;
use bytes::BytesMut;
use crate::buffer::{buffer_advance, buffer_bytes, buffer_slice};
use super::consts::{ESCAPE, FRAME, MASK};
use super::crc::{crc32, crc32_spec};
use super::varint;
use super::encoder::{body_of, checked, encoded_frame, escape_byte, frame_body, le32, stuff, wire_of};
use super::Frame;

verus! {

/// Capacity of a decoder made by `Decoder::new`: the largest frame body.
pub const DEFAULT_CAPACITY: usize = 4096;

#[derive(Debug, Clone, Copy, PartialEq, Eq, Structural)]
pub enum Error {
    UnexpectedData,
    UnexpectedEndOfFrame,
    InvalidChecksum,
    InvalidEncoding,
    InvalidFrame,
    InvalidAddress,
    BufferOverflow,
}

/// The decoding error that stands for a bad address.
pub open spec fn address_error(e: varint::DecodeError) -> Error {
    match e {
        varint::DecodeError::Incomplete => Error::InvalidFrame,
        varint::DecodeError::Overflow => Error::InvalidAddress,
    }
}

impl From<varint::DecodeError> for Error {
    fn from(value: varint::DecodeError) -> (r: Self) {
        match value {
            varint::DecodeError::Incomplete => Error::InvalidFrame,
            varint::DecodeError::Overflow => Error::InvalidAddress,
        }
    }
}

impl vstd::std_specs::convert::FromSpecImpl<varint::DecodeError> for Error {
    open spec fn obeys_from_spec() -> bool {
        true
    }

    open spec fn from_spec(v: varint::DecodeError) -> Self {
        address_error(v)
    }
}

/// Whether the decoder is between frames or inside one.
#[derive(Debug, Clone, Copy, PartialEq, Eq, Structural)]
pub enum State {
    Discard,
    Frame,
}

/// Whether the previous byte inside a frame was the escape byte.
#[derive(Debug, Clone, Copy, PartialEq, Eq, Structural)]
pub enum EscState {
    Normal,
    Escape,
}

/// A frame as a value.
pub struct FrameView {
    pub address: u32,
    pub control: u8,
    pub data: Seq<u8>,
}

pub open spec fn frame_view(f: Frame) -> FrameView {
    FrameView { address: f.address, control: f.control, data: f.data@ }
}

pub open spec fn result_view(r: Result<Option<Frame>, Error>) -> Result<Option<FrameView>, Error> {
    match r {
        Ok(Some(f)) => Ok(Some(frame_view(f))),
        Ok(None) => Ok(None),
        Err(e) => Err(e),
    }
}

/// The decoder as a value: its two states, the unescaped bytes of the
/// current frame, whether bytes of it were dropped for want of room, and the
/// room there is.
pub struct DecoderModel {
    pub state: State,
    pub esc: EscState,
    pub buf: Seq<u8>,
    pub overflow: bool,
    pub cap: nat,
}

/// What one call of `process` gives: its result, the decoder after it, and
/// the number of input bytes it took.
pub struct Outcome {
    pub result: Result<Option<FrameView>, Error>,
    pub model: DecoderModel,
    pub consumed: nat,
}

pub open spec fn fresh_model(cap: nat) -> DecoderModel {
    DecoderModel { state: State::Discard, esc: EscState::Normal, buf: Seq::empty(), overflow: false, cap }
}

pub open spec fn reset_model(m: DecoderModel) -> DecoderModel {
    fresh_model(m.cap)
}

/// Resets, but stays inside a frame: the closing flag may open the next one.
pub open spec fn reset_in_frame(m: DecoderModel) -> DecoderModel {
    DecoderModel { state: State::Frame, ..fresh_model(m.cap) }
}

/// Takes in one unescaped byte; it is dropped when the buffer is full.
pub open spec fn push_model(m: DecoderModel, b: u8) -> DecoderModel {
    if m.buf.len() < m.cap {
        DecoderModel { buf: m.buf.push(b), ..m }
    } else {
        DecoderModel { overflow: true, ..m }
    }
}

/// The little-endian value of the first four bytes of `s`.
pub open spec fn le_value(s: Seq<u8>) -> u32 {
    (s[0] as u32) | ((s[1] as u32) << 8u32) | ((s[2] as u32) << 16u32) | ((s[3] as u32) << 24u32)
}

pub open spec fn outcome(result: Result<Option<FrameView>, Error>, model: DecoderModel, consumed: nat) -> Outcome {
    Outcome { result, model, consumed }
}

/// Checks and splits the buffered body once the closing flag is seen. A
/// frame that did not fit the buffer is refused first.
#[verifier::opaque]
pub open spec fn finish_spec(m: DecoderModel) -> (Result<Option<FrameView>, Error>, DecoderModel) {
    let b = m.buf;
    if m.overflow {
        (Err(Error::BufferOverflow), reset_model(m))
    } else if b.len() < 6 {
        (Err(Error::InvalidFrame), reset_in_frame(m))
    } else if crc32_spec(b.take(b.len() - 4)) != le_value(b.skip(b.len() - 4)) {
        (Err(Error::InvalidChecksum), reset_in_frame(m))
    } else {
        match varint::decode_spec(b) {
            Err(e) => (Err(address_error(e)), reset_model(m)),
            Ok((address, n)) => if b.len() < n + 5 {
                (Err(Error::InvalidFrame), reset_model(m))
            } else {
                (
                    Ok(Some(FrameView { address, control: b[n as int], data: b.subrange(n + 1, b.len() - 4) })),
                    reset_model(m),
                )
            },
        }
    }
}

/// Runs the frame state of the table over `s` from index `i` until a frame
/// ends, an error occurs, or the input runs out.
pub open spec fn scan_frame(m: DecoderModel, s: Seq<u8>, i: nat) -> Outcome
    decreases s.len() - i,
{
    if i >= s.len() {
        outcome(Ok(None), m, s.len())
    } else {
        let b = s[i as int];
        if b == 0x7d && m.esc == EscState::Normal {
            scan_frame(DecoderModel { esc: EscState::Escape, ..m }, s, i + 1)
        } else if b == 0x7d {
            outcome(Err(Error::InvalidEncoding), reset_model(m), i + 1)
        } else if b == 0x7e && m.esc == EscState::Normal {
            outcome(finish_spec(m).0, finish_spec(m).1, i + 1)
        } else if b == 0x7e {
            outcome(Err(Error::UnexpectedEndOfFrame), reset_model(m), i)
        } else if m.esc == EscState::Normal {
            scan_frame(push_model(m, b), s, i + 1)
        } else {
            scan_frame(DecoderModel { esc: EscState::Normal, ..push_model(m, b ^ 0x20u8) }, s, i + 1)
        }
    }
}

/// The first `i` from `from` on with a flag at `i` and no flag at `i + 1`.
pub open spec fn frame_start_from(s: Seq<u8>, from: nat) -> Option<nat>
    decreases s.len() - from,
{
    if from + 1 >= s.len() {
        None
    } else if s[from as int] == 0x7e && s[from + 1 as int] != 0x7e {
        Some(from)
    } else {
        frame_start_from(s, from + 1)
    }
}

/// What one call of `process` does on input `s`.
pub open spec fn process_spec(m: DecoderModel, s: Seq<u8>) -> Outcome {
    if s.len() == 0 {
        outcome(Ok(None), m, 0)
    } else if m.state == State::Discard {
        match frame_start_from(s, 0) {
            Some(k) => if k == 0 {
                let o = scan_frame(DecoderModel { state: State::Frame, ..m }, s.skip(1), 0);
                outcome(o.result, o.model, o.consumed + 1)
            } else {
                outcome(Err(Error::UnexpectedData), DecoderModel { state: State::Frame, ..m }, k + 1)
            },
            None => outcome(
                Err(Error::UnexpectedData),
                m,
                if s.last() == 0x7e { (s.len() - 1) as nat } else { s.len() },
            ),
        }
    } else {
        scan_frame(m, s, 0)
    }
}

proof fn lemma_decode_len(s: Seq<u8>, i: nat, acc: nat)
    ensures
        varint::scan(s, i, acc) matches Ok((v, n)) ==> n <= s.len(),
    decreases s.len() - i,
{
    if i < s.len() {
        lemma_decode_len(s, i + 1, acc + (s[i as int] / 2) as nat * vstd::arithmetic::power::pow(128, i) as nat);
    }
}

/// Returns the position of the first flag byte that is not followed by
/// another flag byte.
pub fn find_frame_start(buf: &[u8]) -> (r: Option<usize>)
    ensures
        r is None <==> frame_start_from(buf@, 0) is None,
        r matches Some(k) ==> frame_start_from(buf@, 0) == Some(k as nat) && k + 1 < buf@.len(),
{
    if buf.len() == 0 {
        return None;
    }
    let mut i: usize = 0;
    while i < buf.len() - 1
        invariant
            buf@.len() > 0,
            frame_start_from(buf@, 0) == frame_start_from(buf@, i as nat),
        decreases buf.len() - i,
    {
        if buf[i] == FRAME && buf[i + 1] != FRAME {
            return Some(i);
        }
        i = i + 1;
    }
    None
}

pub struct Decoder {
    buf: Vec<u8>,
    cap: usize,
    state: State,
    esc: EscState,
    overflow: bool,
}

impl View for Decoder {
    type V = DecoderModel;

    closed spec fn view(&self) -> DecoderModel {
        DecoderModel { state: self.state, esc: self.esc, buf: self.buf@, overflow: self.overflow, cap: self.cap as nat }
    }
}

impl Decoder {
    /// A decoder for frame bodies of up to 4096 bytes.
    pub fn new() -> (r: Self)
        ensures
            r@ == fresh_model(DEFAULT_CAPACITY as nat),
    {
        Self::with_capacity(DEFAULT_CAPACITY)
    }

    /// A decoder for frame bodies of up to `cap` bytes.
    pub fn with_capacity(cap: usize) -> (r: Self)
        ensures
            r@ == fresh_model(cap as nat),
    {
        let r = Decoder { buf: Vec::new(), cap, state: State::Discard, esc: EscState::Normal, overflow: false };
        assert(r@.buf =~= Seq::<u8>::empty());
        r
    }

    /// The frame state and the escape state.
    pub fn state(&self) -> (r: (State, EscState))
        ensures
            r == (self@.state, self@.esc),
    {
        (self.state, self.esc)
    }

    fn reset(&mut self)
        ensures
            final(self)@ == reset_model(old(self)@),
    {
        self.buf.clear();
        self.state = State::Discard;
        self.esc = EscState::Normal;
        self.overflow = false;
        assert(self@.buf =~= Seq::<u8>::empty());
    }

    fn push_byte(&mut self, byte: u8)
        ensures
            final(self)@ == push_model(old(self)@, byte),
    {
        if self.buf.len() < self.cap {
            self.buf.push(byte);
        } else {
            self.overflow = true;
        }
    }

    fn decode_buffered(&mut self) -> (r: Result<Option<Frame>, Error>)
        ensures
            (result_view(r), final(self)@) == finish_spec(old(self)@),
    {
        proof {
            reveal(finish_spec);
        }
        if self.overflow {
            self.reset();
            return Err(Error::BufferOverflow);
        }
        let len = self.buf.len();
        if len < 6 {
            self.reset();
            self.state = State::Frame;
            return Err(Error::InvalidFrame);
        }
        let crc_actual = crc32(self.buf.as_slice().split_at(len - 4).0);
        let crc_expect: u32 = (self.buf[len - 4] as u32) | ((self.buf[len - 3] as u32) << 8u32)
            | ((self.buf[len - 2] as u32) << 16u32) | ((self.buf[len - 1] as u32) << 24u32);
        proof {
            let b = self.buf@;
            assert(b.skip(len - 4)[0] == b[len - 4]);
            assert(b.skip(len - 4)[1] == b[len - 3]);
            assert(b.skip(len - 4)[2] == b[len - 2]);
            assert(b.skip(len - 4)[3] == b[len - 1]);
        }
        if crc_expect != crc_actual {
            self.reset();
            self.state = State::Frame;
            return Err(Error::InvalidChecksum);
        }
        let (address, n) = match varint::decode(self.buf.as_slice()) {
            Ok(x) => x,
            Err(e) => {
                self.reset();
                return Err(Error::from(e));
            },
        };
        proof {
            lemma_decode_len(self.buf@, 0, 0);
        }
        if n > len - 5 {
            self.reset();
            return Err(Error::InvalidFrame);
        }
        let control = self.buf[n];
        let mut data: Vec<u8> = Vec::new();
        let mut i: usize = n + 1;
        while i < len - 4
            invariant
                n + 1 <= i <= len - 4,
                len == self.buf@.len(),
                self.buf@ == old(self)@.buf,
                data@ == self.buf@.subrange(n + 1, i as int),
            decreases len - 4 - i,
        {
            data.push(self.buf[i]);
            proof {
                assert(data@ =~= self.buf@.subrange(n + 1, i + 1));
            }
            i = i + 1;
        }
        let frame = Frame { address, control, data };
        self.reset();
        Ok(Some(frame))
    }

    /// Takes bytes from the front of `buf` until a frame is complete, an
    /// error is found, or the input is used up. Partial frames are kept and
    /// resumed on the next call.
    pub fn process(&mut self, buf: &mut BytesMut) -> (r: Result<Option<Frame>, Error>)
        ensures
            ({
                let out = process_spec(old(self)@, buffer_bytes(*old(buf)));
                &&& result_view(r) == out.result
                &&& final(self)@ == out.model
                &&& buffer_bytes(*final(buf)) == buffer_bytes(*old(buf)).skip(out.consumed as int)
            }),
    {
        let ghost s0 = buffer_bytes(*buf);
        let ghost target = process_spec(self@, s0);
        let len0 = buffer_slice(buf).len();
        if len0 == 0 {
            assert(buffer_bytes(*buf).skip(0) =~= buffer_bytes(*buf));
            return Ok(None);
        }
        if self.state == State::Discard {
            let start = find_frame_start(buffer_slice(buf));
            match start {
                Some(k) => {
                    self.state = State::Frame;
                    if k == 0 {
                        buffer_advance(buf, 1);
                        proof {
                            assert(frame_start_from(s0, 0) == Some(0nat));
                            assert(target == outcome(
                                scan_frame(self@, s0.skip(1), 0).result,
                                scan_frame(self@, s0.skip(1), 0).model,
                                scan_frame(self@, s0.skip(1), 0).consumed + 1,
                            ));
                        }
                    } else {
                        buffer_advance(buf, k + 1);
                        return Err(Error::UnexpectedData);
                    }
                },
                None => {
                    let slice = buffer_slice(buf);
                    let n = if slice[len0 - 1] == FRAME {
                        len0 - 1
                    } else {
                        len0
                    };
                    buffer_advance(buf, n);
                    return Err(Error::UnexpectedData);
                },
            }
        }
        let ghost s = buffer_bytes(*buf);
        let ghost skipped: nat = (s0.len() - s.len()) as nat;
        let ghost m0 = self@;
        proof {
            assert(s =~= s0.skip(skipped as int));
            if old(self)@.state == State::Frame {
                assert(s0.skip(0) =~= s0);
            }
        }
        let slice = buffer_slice(buf);
        let len = slice.len();
        let mut i: usize = 0;
        while i < len
            invariant
                i <= len,
                len == s.len(),
                slice@ == s,
                buffer_bytes(*buf) == s,
                s == s0.skip(skipped as int),
                skipped + s.len() == s0.len(),
                self@.state == State::Frame,
                self@.cap == m0.cap,
                scan_frame(self@, s, i as nat) == scan_frame(m0, s, 0),
                target == process_spec(old(self)@, buffer_bytes(*old(buf))),
                s0 == buffer_bytes(*old(buf)),
                target == outcome(
                    scan_frame(m0, s, 0).result,
                    scan_frame(m0, s, 0).model,
                    scan_frame(m0, s, 0).consumed + skipped,
                ),
            decreases len - i,
        {
            let b = slice[i];
            let ghost cur = self@;
            assert(b == s[i as int]);
            if b == ESCAPE && self.esc == EscState::Normal {
                self.esc = EscState::Escape;
            } else if b == ESCAPE {
                assert(scan_frame(cur, s, i as nat) == outcome(Err(Error::InvalidEncoding), reset_model(cur), (i + 1) as nat));
                buffer_advance(buf, i + 1);
                self.reset();
                proof {
                    assert(s0.skip(skipped as int).skip(i + 1) =~= s0.skip(skipped + i + 1));
                }
                return Err(Error::InvalidEncoding);
            } else if b == FRAME && self.esc == EscState::Normal {
                assert(scan_frame(cur, s, i as nat) == outcome(finish_spec(cur).0, finish_spec(cur).1, (i + 1) as nat));
                buffer_advance(buf, i + 1);
                proof {
                    assert(s0.skip(skipped as int).skip(i + 1) =~= s0.skip(skipped + i + 1));
                }
                return self.decode_buffered();
            } else if b == FRAME {
                assert(scan_frame(cur, s, i as nat) == outcome(Err(Error::UnexpectedEndOfFrame), reset_model(cur), i as nat));
                buffer_advance(buf, i);
                self.reset();
                proof {
                    assert(s0.skip(skipped as int).skip(i as int) =~= s0.skip(skipped + i));
                }
                return Err(Error::UnexpectedEndOfFrame);
            } else if self.esc == EscState::Normal {
                self.push_byte(b);
            } else {
                self.push_byte(b ^ MASK);
                self.esc = EscState::Normal;
            }
            i = i + 1;
        }
        buffer_advance(buf, len);
        proof {
            assert(s0.skip(skipped as int).skip(len as int) =~= s0.skip(s0.len() as int));
        }
        Ok(None)
    }
}

impl Default for Decoder {
    fn default() -> (r: Self)
        ensures
            r@ == fresh_model(DEFAULT_CAPACITY as nat),
    {
        Self::new()
    }
}

/// Takes in the unescaped bytes `x`, one after the other.
pub open spec fn push_all(m: DecoderModel, x: Seq<u8>) -> DecoderModel
    decreases x.len(),
{
    if x.len() == 0 {
        m
    } else {
        push_model(push_all(m, x.drop_last()), x.last())
    }
}

proof fn lemma_push_all_fits(m: DecoderModel, x: Seq<u8>)
    requires
        m.buf.len() + x.len() <= m.cap,
    ensures
        push_all(m, x) == (DecoderModel { buf: m.buf + x, ..m }),
    decreases x.len(),
{
    if x.len() == 0 {
        assert(m.buf + x =~= m.buf);
    } else {
        lemma_push_all_fits(m, x.drop_last());
        assert(m.buf + x.drop_last() + seq![x.last()] =~= m.buf + x);
        assert((m.buf + x.drop_last()).push(x.last()) =~= m.buf + x);
    }
}

proof fn lemma_push_all_keeps(m: DecoderModel, x: Seq<u8>)
    ensures
        push_all(m, x).state == m.state,
        push_all(m, x).esc == m.esc,
        push_all(m, x).cap == m.cap,
    decreases x.len(),
{
    if x.len() > 0 {
        lemma_push_all_keeps(m, x.drop_last());
    }
}

/// Stuffed bytes never hold a flag byte.
pub proof fn lemma_stuff_no_flag(x: Seq<u8>)
    ensures
        forall|i: int| 0 <= i < stuff(x).len() ==> stuff(x)[i] != 0x7e,
    decreases x.len(),
{
    if x.len() > 0 {
        lemma_stuff_no_flag(x.drop_last());
        let b = x.last();
        assert(b == 0x7d || b == 0x7e ==> (b ^ 0x20u8) != 0x7e) by (bit_vector);
        assert(stuff(x) == stuff(x.drop_last()) + escape_byte(b));
    }
}

/// Inside a frame, the stuffed form of `x` takes `x` into the buffer and
/// leaves the escape state as it found it.
proof fn lemma_scan_stuffed(m: DecoderModel, s: Seq<u8>, i: nat, x: Seq<u8>)
    requires
        m.esc == EscState::Normal,
        i + stuff(x).len() <= s.len(),
        s.subrange(i as int, (i + stuff(x).len()) as int) == stuff(x),
    ensures
        scan_frame(m, s, i) == scan_frame(push_all(m, x), s, i + stuff(x).len()),
    decreases x.len(),
{
    if x.len() > 0 {
        let x0 = x.drop_last();
        let b = x.last();
        let st = stuff(x);
        let n0: int = stuff(x0).len() as int;
        assert(st == stuff(x0) + escape_byte(b));
        encoder_len(x0);
        assert forall|k: int| 0 <= k < st.len() implies s[i + k] == st[k] by {
            assert(s.subrange(i as int, (i + st.len()) as int)[k] == st[k]);
        }
        assert(s.subrange(i as int, i + n0) =~= stuff(x0)) by {
            assert forall|k: int| 0 <= k < n0 implies s[i + k] == stuff(x0)[k] by {
                assert(st[k] == stuff(x0)[k]);
            }
        }
        lemma_scan_stuffed(m, s, i, x0);
        lemma_push_all_keeps(m, x0);
        let m1 = push_all(m, x0);
        let j: nat = (i + n0) as nat;
        assert(s[j as int] == st[n0]);
        if b == 0x7d || b == 0x7e {
            assert(s[j + 1int] == st[n0 + 1]);
            assert(s[j as int] == 0x7d);
            let e = b ^ 0x20u8;
            assert(s[j + 1int] == e);
            assert(b == 0x7d || b == 0x7e ==> (b ^ 0x20u8) != 0x7e && (b ^ 0x20u8) != 0x7d && (b
                ^ 0x20u8) ^ 0x20u8 == b) by (bit_vector);
            let m2 = DecoderModel { esc: EscState::Escape, ..m1 };
            assert(scan_frame(m1, s, j) == scan_frame(m2, s, j + 1));
            assert(scan_frame(m2, s, j + 1) == scan_frame(
                DecoderModel { esc: EscState::Normal, ..push_model(m2, e ^ 0x20u8) },
                s,
                j + 2,
            ));
            assert(DecoderModel { esc: EscState::Normal, ..push_model(m2, e ^ 0x20u8) } == push_model(m1, b));
        } else {
            assert(s[j as int] == b);
            assert(scan_frame(m1, s, j) == scan_frame(push_model(m1, b), s, j + 1));
        }
    }
}

proof fn encoder_len(x: Seq<u8>)
    ensures
        stuff(x).len() >= x.len(),
{
    super::encoder::lemma_stuff_len(x);
}

proof fn lemma_le_value(x: u32)
    ensures
        le_value(le32(x)) == x,
{
    let s = le32(x);
    assert(((x & 0xff) as u8 as u32) | (((((x >> 8) & 0xff) as u8) as u32) << 8u32) | (((((x >> 16)
        & 0xff) as u8) as u32) << 16u32) | (((((x >> 24) & 0xff) as u8) as u32) << 24u32) == x)
        by (bit_vector);
}

/// Decoding a stuffed body from a fresh decoder: the opening flag is found
/// at once, and the body is buffered up to the closing flag.
proof fn lemma_decode_wire(cap: nat, inner: Seq<u8>, rest: Seq<u8>)
    requires
        1 <= inner.len() <= cap,
    ensures
        ({
            let m = push_all(DecoderModel { state: State::Frame, ..fresh_model(cap) }, inner);
            &&& m == (DecoderModel { state: State::Frame, buf: inner, ..fresh_model(cap) })
            &&& process_spec(fresh_model(cap), wire_of(inner) + rest) == outcome(
                finish_spec(m).0,
                finish_spec(m).1,
                wire_of(inner).len(),
            )
        }),
{
    let s = wire_of(inner) + rest;
    let st = stuff(inner);
    encoder_len(inner);
    lemma_stuff_no_flag(inner);
    assert(s[0] == 0x7e);
    assert(s[1] == st[0]);
    assert(frame_start_from(s, 0) == Some(0nat));
    let m1 = DecoderModel { state: State::Frame, ..fresh_model(cap) };
    let t = s.skip(1);
    assert(t.subrange(0, st.len() as int) =~= st);
    lemma_scan_stuffed(m1, t, 0, inner);
    lemma_push_all_fits(m1, inner);
    assert(m1.buf + inner =~= inner);
    let m2 = push_all(m1, inner);
    assert(t[st.len() as int] == 0x7e);
    assert(scan_frame(m2, t, st.len()) == outcome(finish_spec(m2).0, finish_spec(m2).1, st.len() + 1));
}

/// Decoding the wire form of a frame with a fresh decoder gives the frame
/// back, takes exactly its bytes, and leaves the decoder fresh, whatever
/// bytes follow; this holds for every payload, whichever flag and escape
/// bytes it holds, as long as the checked body fits the decoder.
pub proof fn lemma_decode_encode_frame(address: u32, control: u8, data: Seq<u8>, rest: Seq<u8>)
    requires
        checked(body_of(address, control, data)).len() <= DEFAULT_CAPACITY,
    ensures
        process_spec(fresh_model(DEFAULT_CAPACITY as nat), wire_of(checked(body_of(address, control, data))) + rest)
            == outcome(
            Ok(Some(FrameView { address, control, data })),
            fresh_model(DEFAULT_CAPACITY as nat),
            wire_of(checked(body_of(address, control, data))).len(),
        ),
{
    reveal(finish_spec);
    let cap = DEFAULT_CAPACITY as nat;
    let body = body_of(address, control, data);
    let cb = checked(body);
    let v = varint::varint_bytes(address as nat);
    varint::lemma_varint_len_bound(address as nat);
    lemma_decode_wire(cap, cb, rest);
    let m = DecoderModel { state: State::Frame, buf: cb, ..fresh_model(cap) };
    let len = cb.len();
    assert(cb.take(len - 4) =~= body);
    assert(cb.skip(len - 4) =~= le32(crc32_spec(body)));
    lemma_le_value(crc32_spec(body));
    assert(cb =~= v + (seq![control] + data + le32(crc32_spec(body))));
    varint::lemma_decode_encode(address, seq![control] + data + le32(crc32_spec(body)));
    let n = v.len();
    assert(cb[n as int] == control);
    assert(cb.subrange(n + 1int, len - 4) =~= data);
}

proof fn lemma_frame_start_after(s: Seq<u8>, from: nat, at: nat)
    requires
        from <= at,
        at + 1 < s.len(),
        forall|k: int| from <= k < at ==> s[k] != 0x7e,
        s[at as int] == 0x7e,
        s[at + 1int] != 0x7e,
    ensures
        frame_start_from(s, from) == Some(at),
    decreases at - from,
{
    if from < at {
        lemma_frame_start_after(s, from + 1, at);
    }
}

/// Noise before a frame: the first call reports it and takes it together
/// with the opening flag; the second call gives the frame.
pub proof fn lemma_noise_then_frame(noise: Seq<u8>, address: u32, control: u8, data: Seq<u8>, rest: Seq<u8>)
    requires
        noise.len() > 0,
        forall|i: int| 0 <= i < noise.len() ==> noise[i] != 0x7e,
        checked(body_of(address, control, data)).len() <= DEFAULT_CAPACITY,
    ensures
        ({
            let cap = DEFAULT_CAPACITY as nat;
            let wire = wire_of(checked(body_of(address, control, data)));
            let first = process_spec(fresh_model(cap), noise + wire + rest);
            let second = process_spec(first.model, (noise + wire + rest).skip(first.consumed as int));
            &&& first.result == Err::<Option<FrameView>, Error>(Error::UnexpectedData)
            &&& first.consumed == noise.len() + 1
            &&& second.result == Ok::<Option<FrameView>, Error>(Some(FrameView { address, control, data }))
            &&& second.consumed == wire.len() - 1
            &&& second.model == fresh_model(cap)
        }),
{
    let cap = DEFAULT_CAPACITY as nat;
    let cb = checked(body_of(address, control, data));
    let wire = wire_of(cb);
    let s = noise + wire + rest;
    let st = stuff(cb);
    varint::lemma_varint_len_bound(address as nat);
    encoder_len(cb);
    lemma_stuff_no_flag(cb);
    assert(s[noise.len() as int] == 0x7e);
    assert(s[noise.len() + 1int] == st[0]);
    assert forall|k: int| 0 <= k < noise.len() implies s[k] != 0x7e by {
        assert(s[k] == noise[k]);
    }
    lemma_frame_start_after(s, 0, noise.len());
    assert(frame_start_from(s, 0) == Some(noise.len()));
    let first = process_spec(fresh_model(cap), s);
    let m1 = DecoderModel { state: State::Frame, ..fresh_model(cap) };
    assert(first.model == m1);
    let t = s.skip(noise.len() + 1int);
    assert(t.subrange(0, st.len() as int) =~= st);
    assert(t[st.len() as int] == 0x7e);
    lemma_scan_stuffed(m1, t, 0, cb);
    lemma_push_all_fits(m1, cb);
    assert(m1.buf + cb =~= cb);
    lemma_decode_encode_frame(address, control, data, rest);
    lemma_decode_wire(cap, cb, rest);
    let w = wire + rest;
    assert(w.skip(1) =~= t);
}

/// A payload with one bit flipped after the checksum was computed: the
/// decoder reports a checksum error, takes the whole frame, and is left
/// inside a frame with an empty buffer, ready for the next one.
pub proof fn lemma_flipped_bit_detected(
    address: u32,
    control: u8,
    data: Seq<u8>,
    j: int,
    bit: u8,
    rest: Seq<u8>,
)
    requires
        0 <= j < data.len(),
        bit < 8,
        checked(body_of(address, control, data)).len() <= DEFAULT_CAPACITY,
    ensures
        ({
            let cap = DEFAULT_CAPACITY as nat;
            let sum = crc32_spec(body_of(address, control, data));
            let flipped = data.update(j, data[j] ^ (1u8 << bit));
            let wire = wire_of(body_of(address, control, flipped) + le32(sum));
            process_spec(fresh_model(cap), wire + rest) == outcome(
                Err(Error::InvalidChecksum),
                reset_in_frame(fresh_model(cap)),
                wire.len(),
            )
        }),
{
    reveal(finish_spec);
    let cap = DEFAULT_CAPACITY as nat;
    let body = body_of(address, control, data);
    let sum = crc32_spec(body);
    let x = data[j];
    let y = x ^ (1u8 << bit);
    assert(x != y) by (bit_vector)
        requires
            y == x ^ (1u8 << bit),
            bit < 8,
    ;
    let flipped = data.update(j, y);
    let body2 = body_of(address, control, flipped);
    let inner = body2 + le32(sum);
    varint::lemma_varint_len_bound(address as nat);
    lemma_decode_wire(cap, inner, rest);
    let v = varint::varint_bytes(address as nat);
    let p = v + seq![control] + data.take(j);
    let q = data.skip(j + 1);
    assert(body =~= p + seq![x] + q);
    assert(body2 =~= p + seq![y] + q);
    super::crc::lemma_crc_detects_byte_error(p, x, y, q);
    let len = inner.len();
    assert(inner.take(len - 4) =~= body2);
    assert(inner.skip(len - 4) =~= le32(sum));
    lemma_le_value(sum);
}

/// Decoding what the encoder wrote for a frame gives the frame back.
pub proof fn lemma_frame_round_trip(f: Frame, rest: Seq<u8>)
    requires
        checked(frame_body(f)).len() <= DEFAULT_CAPACITY,
    ensures
        process_spec(fresh_model(DEFAULT_CAPACITY as nat), encoded_frame(f) + rest) == outcome(
            Ok(Some(frame_view(f))),
            fresh_model(DEFAULT_CAPACITY as nat),
            encoded_frame(f).len(),
        ),
{
    lemma_decode_encode_frame(f.address, f.control, f.data@, rest);
}

/// Noise after a frame, with the decoder back between frames: it is
/// reported and taken whole.
pub proof fn lemma_trailing_noise(cap: nat, noise: Seq<u8>)
    requires
        noise.len() > 0,
        forall|i: int| 0 <= i < noise.len() ==> noise[i] != 0x7e,
    ensures
        process_spec(fresh_model(cap), noise) == outcome(
            Err(Error::UnexpectedData),
            fresh_model(cap),
            noise.len(),
        ),
{
    lemma_no_frame_start(noise, 0);
}

proof fn lemma_no_frame_start(s: Seq<u8>, from: nat)
    requires
        forall|i: int| 0 <= i < s.len() ==> s[i] != 0x7e,
    ensures
        frame_start_from(s, from) is None,
    decreases s.len() - from,
{
    if from + 1 < s.len() {
        lemma_no_frame_start(s, from + 1);
    }
}

/// `o` with `k` more bytes taken.
pub open spec fn shifted(o: Outcome, k: nat) -> Outcome {
    outcome(o.result, o.model, o.consumed + k)
}

proof fn lemma_scan_shift(m: DecoderModel, a: Seq<u8>, b: Seq<u8>, j: nat)
    requires
        j <= b.len(),
    ensures
        scan_frame(m, a + b, a.len() + j) == shifted(scan_frame(m, b, j), a.len()),
    decreases b.len() - j,
{
    let s = a + b;
    if j < b.len() {
        assert(s[(a.len() + j) as int] == b[j as int]);
        let m_esc = DecoderModel { esc: EscState::Escape, ..m };
        let m_push = push_model(m, b[j as int]);
        let m_unesc = DecoderModel { esc: EscState::Normal, ..push_model(m, b[j as int] ^ 0x20u8) };
        lemma_scan_shift(m_esc, a, b, j + 1);
        lemma_scan_shift(m_push, a, b, j + 1);
        lemma_scan_shift(m_unesc, a, b, j + 1);
    }
}

proof fn lemma_scan_resume(m: DecoderModel, s1: Seq<u8>, s2: Seq<u8>, i: nat)
    requires
        i <= s1.len(),
        scan_frame(m, s1, i).result == Ok::<Option<FrameView>, Error>(None),
    ensures
        scan_frame(m, s1 + s2, i) == shifted(scan_frame(scan_frame(m, s1, i).model, s2, 0), s1.len()),
    decreases s1.len() - i,
{
    reveal(finish_spec);
    let s = s1 + s2;
    if i < s1.len() {
        assert(s[i as int] == s1[i as int]);
        let m_esc = DecoderModel { esc: EscState::Escape, ..m };
        let m_push = push_model(m, s1[i as int]);
        let m_unesc = DecoderModel { esc: EscState::Normal, ..push_model(m, s1[i as int] ^ 0x20u8) };
        let b = s1[i as int];
        if b == 0x7d && m.esc == EscState::Normal {
            lemma_scan_resume(m_esc, s1, s2, i + 1);
        } else if b == 0x7d || b == 0x7e {
            assert(finish_spec(m).0 != Ok::<Option<FrameView>, Error>(None));
        } else if m.esc == EscState::Normal {
            lemma_scan_resume(m_push, s1, s2, i + 1);
        } else {
            lemma_scan_resume(m_unesc, s1, s2, i + 1);
        }
    } else {
        lemma_scan_shift(m, s1, s2, 0);
        assert(s1.len() + 0 == s1.len());
    }
}

/// The decoder resumes partial frames: inside a frame, input that a call
/// takes whole without a result, followed by more input on the next call,
/// gives what the two pieces together give in one call.
pub proof fn lemma_resume(m: DecoderModel, s1: Seq<u8>, s2: Seq<u8>)
    requires
        m.state == State::Frame,
        s1.len() > 0,
        process_spec(m, s1).result == Ok::<Option<FrameView>, Error>(None),
    ensures
        process_spec(m, s1).consumed == s1.len(),
        process_spec(m, s1).model.state == State::Frame,
        s2.len() > 0 ==> process_spec(m, s1 + s2) == shifted(process_spec(process_spec(m, s1).model, s2), s1.len()),
{
    lemma_scan_ok_none(m, s1, 0);
    if s2.len() > 0 {
        lemma_scan_resume(m, s1, s2, 0);
    }
}

proof fn lemma_scan_ok_none(m: DecoderModel, s: Seq<u8>, i: nat)
    requires
        i <= s.len(),
        m.state == State::Frame,
        scan_frame(m, s, i).result == Ok::<Option<FrameView>, Error>(None),
    ensures
        scan_frame(m, s, i).consumed == s.len(),
        scan_frame(m, s, i).model.state == State::Frame,
    decreases s.len() - i,
{
    reveal(finish_spec);
    if i < s.len() {
        let b = s[i as int];
        if b == 0x7d && m.esc == EscState::Normal {
            lemma_scan_ok_none(DecoderModel { esc: EscState::Escape, ..m }, s, i + 1);
        } else if b == 0x7d || b == 0x7e {
            assert(finish_spec(m).0 != Ok::<Option<FrameView>, Error>(None));
        } else if m.esc == EscState::Normal {
            lemma_scan_ok_none(push_model(m, b), s, i + 1);
        } else {
            lemma_scan_ok_none(DecoderModel { esc: EscState::Normal, ..push_model(m, b ^ 0x20u8) }, s, i + 1);
        }
    }
}

} // verus!
