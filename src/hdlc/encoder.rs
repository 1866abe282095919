//! Frame encoder: byte stuffing and checksum.

use vstd::prelude::*;
use bytes::BytesMut;
use crate::buffer::{buffer_bytes, buffer_new, buffer_put_u8};
use super::consts::{ESCAPE, FRAME, MASK};
use super::crc::{crc32_spec, update, Crc32};
use super::varint;
use super::Frame;

verus! {

/// What stands on the wire for byte `b` inside a frame.
pub open spec fn escape_byte(b: u8) -> Seq<u8> {
    if b == 0x7d || b == 0x7e {
        seq![0x7du8, b ^ 0x20u8]
    } else {
        seq![b]
    }
}

/// Byte stuffing of `s`.
pub open spec fn stuff(s: Seq<u8>) -> Seq<u8>
    decreases s.len(),
{
    if s.len() == 0 {
        Seq::empty()
    } else {
        stuff(s.drop_last()) + escape_byte(s.last())
    }
}

/// The four bytes of `x`, least significant first.
pub open spec fn le32(x: u32) -> Seq<u8> {
    seq![(x & 0xff) as u8, ((x >> 8) & 0xff) as u8, ((x >> 16) & 0xff) as u8, ((x >> 24) & 0xff) as u8]
}

/// A frame body before the checksum: address, control byte, payload.
pub open spec fn body_of(address: u32, control: u8, data: Seq<u8>) -> Seq<u8> {
    varint::varint_bytes(address as nat) + seq![control] + data
}

/// The body of frame `f` before the checksum.
pub open spec fn frame_body(f: Frame) -> Seq<u8> {
    body_of(f.address, f.control, f.data@)
}

/// A body followed by its checksum.
pub open spec fn checked(body: Seq<u8>) -> Seq<u8> {
    body + le32(crc32_spec(body))
}

/// What stands on the wire for the unescaped bytes `inner`.
pub open spec fn wire_of(inner: Seq<u8>) -> Seq<u8> {
    seq![0x7eu8] + stuff(inner) + seq![0x7eu8]
}

/// The wire form of a frame.
pub open spec fn encoded_frame(f: Frame) -> Seq<u8> {
    wire_of(checked(frame_body(f)))
}

/// Stuffing at most doubles the length.
pub proof fn lemma_stuff_len(s: Seq<u8>)
    ensures
        s.len() <= stuff(s).len() <= 2 * s.len(),
    decreases s.len(),
{
    if s.len() > 0 {
        lemma_stuff_len(s.drop_last());
    }
}

/// Stuffing distributes over concatenation.
pub proof fn lemma_stuff_append(a: Seq<u8>, b: Seq<u8>)
    ensures
        stuff(a + b) == stuff(a) + stuff(b),
    decreases b.len(),
{
    if b.len() == 0 {
        assert(a + b =~= a);
        assert(stuff(a) + stuff(b) =~= stuff(a));
    } else {
        assert((a + b).drop_last() =~= a + b.drop_last());
        assert((a + b).last() == b.last());
        lemma_stuff_append(a, b.drop_last());
        assert(stuff(a + b) =~= stuff(a) + stuff(b));
    }
}

/// Appends `byte` to `buf`, escaped where it is a flag or escape byte.
pub fn put_escaped(buf: &mut BytesMut, byte: u8)
    requires
        buffer_bytes(*old(buf)).len() + 2 < isize::MAX,
    ensures
        buffer_bytes(*final(buf)) == buffer_bytes(*old(buf)) + escape_byte(byte),
{
    if byte == ESCAPE || byte == FRAME {
        buffer_put_u8(buf, ESCAPE);
        buffer_put_u8(buf, MASK ^ byte);
        assert(MASK ^ byte == byte ^ 0x20u8) by (bit_vector)
            requires
                MASK == 0x20u8,
        ;
    } else {
        buffer_put_u8(buf, byte);
    }
    assert(buffer_bytes(*final(buf)) =~= buffer_bytes(*old(buf)) + escape_byte(byte));
}

/// Appends `byte`, escaped, and takes it into the checksum.
fn put_byte(buf: &mut BytesMut, crc: &mut Crc32, byte: u8, Ghost(start): Ghost<Seq<u8>>, Ghost(written): Ghost<Seq<u8>>)
    requires
        buffer_bytes(*old(buf)) == start + stuff(written),
        old(crc).register() == update(0xffff_ffff, written),
        buffer_bytes(*old(buf)).len() + 2 < isize::MAX,
    ensures
        buffer_bytes(*final(buf)) == start + stuff(written.push(byte)),
        final(crc).register() == update(0xffff_ffff, written.push(byte)),
{
    crc.put_u8(byte);
    put_escaped(buf, byte);
    proof {
        assert(written.push(byte).drop_last() =~= written);
        assert(buffer_bytes(*final(buf)) =~= start + stuff(written.push(byte)));
    }
}

/// Appends the wire form of `frame` to `buf`.
pub fn encode(buf: &mut BytesMut, frame: &Frame)
    requires
        buffer_bytes(*old(buf)).len() + 2 * frame.data@.len() + 22 < isize::MAX,
    ensures
        buffer_bytes(*final(buf)) == buffer_bytes(*old(buf)) + encoded_frame(*frame),
{
    let ghost start = buffer_bytes(*buf).push(0x7e);
    let ghost body = frame_body(*frame);
    let ghost limit = buffer_bytes(*buf).len() + 2 * frame.data@.len() + 22;
    buffer_put_u8(buf, FRAME);
    let mut crc = Crc32::new();
    let ghost written: Seq<u8> = Seq::empty();
    proof {
        assert(buffer_bytes(*buf) =~= start + stuff(written));
        varint::lemma_varint_len_bound(frame.address as nat);
    }
    let ghost addr = varint::varint_bytes(frame.address as nat);
    let mut it = varint::encode(frame.address);
    loop
        invariant
            buffer_bytes(*buf) == start + stuff(written),
            crc.register() == update(0xffff_ffff, written),
            written + it.remaining() == addr,
            addr.len() <= 5,
            start.len() + 2 * addr.len() + 2 * frame.data@.len() + 11 <= limit,
            limit < isize::MAX,
        ensures
            buffer_bytes(*buf) == start + stuff(written),
            crc.register() == update(0xffff_ffff, written),
            written == addr,
        decreases it.remaining().len(),
    {
        proof {
            lemma_stuff_len(written);
        }
        match it.next() {
            Some(b) => {
                put_byte(buf, &mut crc, b, Ghost(start), Ghost(written));
                proof {
                    written = written.push(b);
                    assert(written + it.remaining() =~= addr);
                }
            },
            None => {
                assert(written + it.remaining() =~= written);
                assert(written =~= addr);
                break;
            },
        }
    }
    proof {
        assert(written =~= addr);
        lemma_stuff_len(written);
    }
    put_byte(buf, &mut crc, frame.control, Ghost(start), Ghost(written));
    proof {
        written = written.push(frame.control);
    }
    let mut i: usize = 0;
    while i < frame.data.len()
        invariant
            i <= frame.data@.len(),
            buffer_bytes(*buf) == start + stuff(written),
            crc.register() == update(0xffff_ffff, written),
            written == addr + seq![frame.control] + frame.data@.take(i as int),
            addr.len() <= 5,
            start.len() + 2 * addr.len() + 2 * frame.data@.len() + 11 <= limit,
            limit < isize::MAX,
        decreases frame.data@.len() - i,
    {
        proof {
            lemma_stuff_len(written);
        }
        put_byte(buf, &mut crc, frame.data[i], Ghost(start), Ghost(written));
        proof {
            written = written.push(frame.data@[i as int]);
            assert(written =~= addr + seq![frame.control] + frame.data@.take(i + 1));
        }
        i = i + 1;
    }
    proof {
        assert(written =~= body);
    }
    let value = crc.value();
    let ghost sum = crc32_spec(body);
    assert(value == sum);
    let bytes: [u8; 4] = [
        (value & 0xff) as u8,
        ((value >> 8) & 0xff) as u8,
        ((value >> 16) & 0xff) as u8,
        ((value >> 24) & 0xff) as u8,
    ];
    let mut k: usize = 0;
    while k < 4
        invariant
            k <= 4,
            bytes@ == le32(sum),
            buffer_bytes(*buf) == start + stuff(body + bytes@.take(k as int)),
            start.len() + 2 * body.len() + 9 <= limit,
            limit < isize::MAX,
        decreases 4 - k,
    {
        proof {
            lemma_stuff_len(body + bytes@.take(k as int));
        }
        let ghost before = buffer_bytes(*buf);
        put_escaped(buf, bytes[k]);
        proof {
            assert((body + bytes@.take(k + 1)).drop_last() =~= body + bytes@.take(k as int));
            assert((body + bytes@.take(k + 1)).last() == bytes@[k as int]);
            assert(buffer_bytes(*buf) =~= start + stuff(body + bytes@.take(k + 1)));
        }
        k = k + 1;
    }
    proof {
        assert(bytes@.take(4) =~= bytes@);
        lemma_stuff_len(body + bytes@);
    }
    buffer_put_u8(buf, FRAME);
    proof {
        assert(buffer_bytes(*buf) =~= buffer_bytes(*old(buf)) + encoded_frame(*frame));
    }
}

/// Returns the wire form of `frame` in a new buffer.
pub fn encode_bytes(frame: &Frame) -> (r: BytesMut)
    requires
        2 * frame.data@.len() + 22 < isize::MAX,
    ensures
        buffer_bytes(r) == encoded_frame(*frame),
{
    let mut buf = buffer_new();
    encode(&mut buf, frame);
    assert(buffer_bytes(buf) =~= encoded_frame(*frame));
    buf
}

} // verus!
