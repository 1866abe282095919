//! Variable-length encoding of the 32-bit frame address.
//!
//! A value is split into 7-bit groups, least significant group first. Each
//! group is stored in the upper seven bits of a byte; the lowest bit of a
//! byte is set on the last byte only.

use vstd::prelude::*;
use vstd::arithmetic::power::pow;
use arrayvec::ArrayVec;
use crate::buffer::{array_bytes, array_new, array_push};

verus! {

/// Largest value that fits the decoded address.
pub open spec fn max_value() -> nat {
    0xffff_ffff
}

/// The bytes that encode `v`.
pub open spec fn varint_bytes(v: nat) -> Seq<u8>
    decreases v,
{
    if v < 128 {
        seq![(v * 2 + 1) as u8]
    } else {
        seq![((v % 128) * 2) as u8] + varint_bytes(v / 128)
    }
}

/// Left-to-right scan of `s` from index `i`, with `acc` the value
/// accumulated from the bytes before `i`: the value grows by the upper seven
/// bits of each byte, placed at offset `7 * i`; a value above `max_value()`
/// is an overflow, and so is a sixth byte; a byte with its lowest bit set
/// ends the number.
pub open spec fn scan(s: Seq<u8>, i: nat, acc: nat) -> Result<(u32, usize), DecodeError>
    decreases s.len() - i,
{
    if i >= s.len() {
        Err(DecodeError::Incomplete)
    } else if i >= 5 {
        Err(DecodeError::Overflow)
    } else {
        let next = acc + (s[i as int] / 2) as nat * pow(128, i) as nat;
        if next > max_value() {
            Err(DecodeError::Overflow)
        } else if s[i as int] % 2 == 1 {
            Ok((next as u32, (i + 1) as usize))
        } else {
            scan(s, i + 1, next)
        }
    }
}

/// What decoding the bytes `s` gives.
pub open spec fn decode_spec(s: Seq<u8>) -> Result<(u32, usize), DecodeError> {
    scan(s, 0, 0)
}

/// Number of binary digits of `v` (zero for zero).
pub open spec fn bit_len(v: nat) -> nat
    decreases v,
{
    if v == 0 {
        0
    } else {
        1 + bit_len(v / 2)
    }
}

#[derive(Debug, Clone, Copy, PartialEq, Eq, Structural)]
pub enum DecodeError {
    Incomplete,
    Overflow,
}

/// `pow(128, i)` for the first six exponents.
proof fn lemma_pow128_table()
    ensures
        pow(128, 0) == 1,
        pow(128, 1) == 128,
        pow(128, 2) == 16384,
        pow(128, 3) == 2097152,
        pow(128, 4) == 268435456,
        pow(128, 5) == 34359738368,
{
    reveal(pow);
    assert(pow(128, 0) == 1);
    assert(pow(128, 1) == 128 * pow(128, 0));
    assert(pow(128, 2) == 128 * pow(128, 1));
    assert(pow(128, 3) == 128 * pow(128, 2));
    assert(pow(128, 4) == 128 * pow(128, 3));
    assert(pow(128, 5) == 128 * pow(128, 4));
}

/// Decodes a number from the start of `src` and returns it together with the
/// number of bytes it took.
pub fn decode(src: &[u8]) -> (r: Result<(u32, usize), DecodeError>)
    ensures
        r == decode_spec(src@),
{
    let ghost s = src@;
    let mut acc: u64 = 0;
    let mut weight: u64 = 1;
    let mut i: usize = 0;
    proof {
        lemma_pow128_table();
    }
    while i < src.len()
        invariant
            i <= src.len(),
            s == src@,
            acc <= max_value(),
            decode_spec(s) == scan(s, i as nat, acc as nat),
            i <= 5,
            weight == pow(128, i as nat),
            pow(128, 4) == 268435456,
            pow(128, 5) == 34359738368,
        decreases src.len() - i,
    {
        let b = src[i];
        let group = (b >> 1) as u64;
        assert(group == b / 2) by (bit_vector)
            requires
                group == (b >> 1) as u64,
        ;
        assert(b & 1 == b % 2) by (bit_vector);
        assert(group as nat == (s[i as int] / 2) as nat);
        if i >= 5 {
            return Err(DecodeError::Overflow);
        }
        proof {
            vstd::arithmetic::power::lemma_pow_increases(128, i as nat, 4);
        }
        assert(group * weight <= 127 * 268435456) by (nonlinear_arith)
            requires
                group <= 127,
                weight <= 268435456,
        ;
        let next: u64 = acc + group * weight;
        assert(next as nat == acc as nat + (s[i as int] / 2) as nat * pow(128, i as nat) as nat);
        if next > 0xffff_ffff {
            return Err(DecodeError::Overflow);
        }
        if b & 1 == 1 {
            return Ok((next as u32, i + 1));
        }
        acc = next;
        proof {
            vstd::arithmetic::power::lemma_pow_increases(128, i as nat, 4);
            reveal(pow);
            assert(pow(128, (i + 1) as nat) == 128 * pow(128, i as nat));
        }
        weight = weight * 128;
        i = i + 1;
    }
    Err(DecodeError::Incomplete)
}

/// Lazily produces the bytes that encode a number.
pub struct Encode {
    num: u32,
    done: bool,
}

impl Encode {
    /// The bytes that are still to come.
    pub closed spec fn remaining(&self) -> Seq<u8> {
        if self.done {
            Seq::empty()
        } else {
            varint_bytes(self.num as nat)
        }
    }

    /// Returns the next byte of the encoding, or `None` once all are out.
    pub fn next(&mut self) -> (r: Option<u8>)
        ensures
            old(self).remaining().len() == 0 ==> r is None && final(self).remaining() == old(self).remaining(),
            old(self).remaining().len() > 0 ==> r == Some(old(self).remaining()[0])
                && final(self).remaining() == old(self).remaining().drop_first(),
    {
        let num = self.num;
        if self.done {
            None
        } else if (num >> 7) != 0 {
            let b = ((num & 0x7f) as u8) << 1;
            assert(num >> 7 != 0 ==> num >= 128) by (bit_vector);
            assert(num >> 7 == num / 128) by (bit_vector);
            assert(((num & 0x7f) as u8) << 1 == ((num % 128) * 2) as u8) by (bit_vector);
            self.num = num >> 7;
            proof {
                assert(varint_bytes(num as nat) == seq![((num % 128) * 2) as u8] + varint_bytes((num / 128) as nat));
                assert(varint_bytes(num as nat).drop_first() =~= varint_bytes((num / 128) as nat));
            }
            Some(b)
        } else {
            let b = (((num & 0x7f) as u8) << 1) | 1;
            assert(num >> 7 == 0 ==> num < 128) by (bit_vector);
            assert(num < 128 ==> (((num & 0x7f) as u8) << 1) | 1 == (num * 2 + 1) as u8) by (bit_vector);
            self.done = true;
            proof {
                assert(varint_bytes(num as nat) == seq![(num * 2 + 1) as u8]);
                assert(varint_bytes(num as nat).drop_first() =~= Seq::<u8>::empty());
            }
            Some(b)
        }
    }
}

/// Returns the encoding of `num`, byte by byte.
pub fn encode(num: u32) -> (r: Encode)
    ensures
        r.remaining() == varint_bytes(num as nat),
{
    Encode { num, done: false }
}

/// Returns the encoding of `num` as a vector of at most five bytes.
pub fn encode_vec(num: u32) -> (r: ArrayVec<u8, 5>)
    ensures
        array_bytes(r) == varint_bytes(num as nat),
{
    let mut out = array_new();
    let mut it = encode(num);
    proof {
        lemma_varint_len_bound(num as nat);
    }
    loop
        invariant
            array_bytes(out) + it.remaining() == varint_bytes(num as nat),
            array_bytes(out).len() + it.remaining().len() <= 5,
        decreases it.remaining().len(),
    {
        match it.next() {
            Some(b) => {
                array_push(&mut out, b);
                proof {
                    assert(array_bytes(out) + it.remaining() =~= varint_bytes(num as nat));
                }
            },
            None => {
                assert(array_bytes(out) =~= varint_bytes(num as nat));
                return out;
            },
        }
    }
}

/// Number of bytes that the encoding of `value` takes.
pub fn num_bytes(value: u32) -> (r: usize)
    ensures
        r == varint_bytes(value as nat).len(),
        r == if value == 0 { 1 } else { (bit_len(value as nat) + 6) / 7 },
{
    proof {
        lemma_varint_len_closed_form(value as nat);
        lemma_varint_len_bound(value as nat);
    }
    let mut n: usize = 1;
    let mut v: u32 = value;
    while v >= 128
        invariant
            n + varint_bytes(v as nat).len() == varint_bytes(value as nat).len() + 1,
            n <= 5,
            varint_bytes(value as nat).len() <= 5,
            n >= 1,
        decreases v,
    {
        assert(v >> 7 == v / 128) by (bit_vector);
        v = v >> 7;
        n = n + 1;
    }
    n
}

/// An encoding takes at most five bytes.
pub proof fn lemma_varint_len_bound(v: nat)
    requires
        v <= max_value(),
    ensures
        1 <= varint_bytes(v).len() <= 5,
        v < 128 <==> varint_bytes(v).len() == 1,
{
    lemma_pow128_table();
    lemma_varint_len_le(v, 5);
    if v >= 128 {
        lemma_varint_len_le(v / 128, 4);
    }
}

proof fn lemma_varint_len_le(v: nat, k: nat)
    requires
        v < pow(128, k),
        k >= 1,
    ensures
        1 <= varint_bytes(v).len() <= k,
    decreases v,
{
    assert(pow(128, k) == 128 * pow(128, (k - 1) as nat)) by {
        reveal(pow);
    }
    if v >= 128 {
        if k == 1 {
            assert(pow(128, 0) == 1) by {
                reveal(pow);
            }
        }
        let p = pow(128, (k - 1) as nat);
        assert(v / 128 < p) by (nonlinear_arith)
            requires
                v < 128 * p,
        ;
        lemma_varint_len_le(v / 128, (k - 1) as nat);
    }
}

proof fn lemma_bit_len_bound(v: nat, k: nat)
    requires
        v < pow(2, k),
    ensures
        bit_len(v) <= k,
    decreases v,
{
    reveal(pow);
    if v > 0 {
        if k == 0 {
            assert(false);
        } else {
            lemma_bit_len_bound(v / 2, (k - 1) as nat);
        }
    }
}

/// `bit_len(v) == 7 + bit_len(v / 128)` for `v >= 128`.
proof fn lemma_bit_len_shift7(v: nat)
    requires
        v >= 128,
    ensures
        bit_len(v) == 7 + bit_len(v / 128),
{
    let v1 = v / 2;
    let v2 = v1 / 2;
    let v3 = v2 / 2;
    let v4 = v3 / 2;
    let v5 = v4 / 2;
    let v6 = v5 / 2;
    let v7 = v6 / 2;
    assert(v7 == v / 128);
    assert(v1 > 0 && v2 > 0 && v3 > 0 && v4 > 0 && v5 > 0 && v6 > 0);
    assert(bit_len(v) == 1 + bit_len(v1));
    assert(bit_len(v1) == 1 + bit_len(v2));
    assert(bit_len(v2) == 1 + bit_len(v3));
    assert(bit_len(v3) == 1 + bit_len(v4));
    assert(bit_len(v4) == 1 + bit_len(v5));
    assert(bit_len(v5) == 1 + bit_len(v6));
    assert(bit_len(v6) == 1 + bit_len(v7));
}

/// `1 <= bit_len(v) <= 7` for `0 < v < 128`.
proof fn lemma_bit_len_small(v: nat)
    requires
        0 < v < 128,
    ensures
        1 <= bit_len(v) <= 7,
{
    reveal(pow);
    assert(pow(2, 7) == 128) by {
        assert(pow(2, 1) == 2 * pow(2, 0));
        assert(pow(2, 2) == 2 * pow(2, 1));
        assert(pow(2, 3) == 2 * pow(2, 2));
        assert(pow(2, 4) == 2 * pow(2, 3));
        assert(pow(2, 5) == 2 * pow(2, 4));
        assert(pow(2, 6) == 2 * pow(2, 5));
        assert(pow(2, 7) == 2 * pow(2, 6));
    }
    lemma_bit_len_bound(v, 7);
}

/// The length of an encoding: one byte for zero, else one byte per started
/// group of seven binary digits.
pub proof fn lemma_varint_len_closed_form(v: nat)
    ensures
        varint_bytes(v).len() == if v == 0 { 1 } else { (bit_len(v) + 6) / 7 },
    decreases v,
{
    if v >= 128 {
        lemma_varint_len_closed_form(v / 128);
        lemma_bit_len_shift7(v);
    } else if v > 0 {
        lemma_bit_len_small(v);
    }
}

proof fn lemma_scan_encoded(s: Seq<u8>, i: nat, acc: nat, w: nat)
    requires
        i + varint_bytes(w).len() <= s.len(),
        i + varint_bytes(w).len() <= 5,
        s.subrange(i as int, (i + varint_bytes(w).len()) as int) == varint_bytes(w),
        acc + w * pow(128, i) <= max_value(),
        acc < pow(128, i),
    ensures
        scan(s, i, acc) == Ok::<(u32, usize), DecodeError>(
            ((acc + w * pow(128, i)) as u32, (i + varint_bytes(w).len()) as usize),
        ),
    decreases w,
{
    let p = pow(128, i);
    vstd::arithmetic::power::lemma_pow_positive(128, i);
    assert(s[i as int] == varint_bytes(w)[0]);
    if w < 128 {
        assert((w * 2 + 1) as u8 == w * 2 + 1);
        assert(s[i as int] / 2 == w);
    } else {
        let lo = w % 128;
        let hi = w / 128;
        assert(s[i as int] / 2 == lo);
        assert(s[i as int] % 2 == 0);
        assert(pow(128, i + 1) == 128 * p) by {
            reveal(pow);
        }
        assert(w * p == lo * p + hi * (128 * p)) by (nonlinear_arith)
            requires
                w == hi * 128 + lo,
        ;
        assert(hi * (128 * p) >= 0) by (nonlinear_arith)
            requires
                p > 0,
        ;
        assert(acc + lo * p < 128 * p) by (nonlinear_arith)
            requires
                acc < p,
                lo < 128,
        ;
        let tail = varint_bytes(hi);
        assert(varint_bytes(w) == seq![(lo * 2) as u8] + tail);
        assert(s.subrange(i + 1 as int, (i + 1 + tail.len()) as int) =~= tail) by {
            assert forall|k: int| 0 <= k < tail.len() implies s[i + 1 + k] == tail[k] by {
                assert(s.subrange(i as int, (i + varint_bytes(w).len()) as int)[k + 1] == varint_bytes(w)[k + 1]);
            }
        }
        lemma_scan_encoded(s, i + 1, (acc + lo * p) as nat, hi);
    }
}

/// Decoding the encoding of a value, whatever bytes follow it, gives the
/// value back together with the length of its encoding.
pub proof fn lemma_decode_encode(v: u32, rest: Seq<u8>)
    ensures
        decode_spec(varint_bytes(v as nat) + rest) == Ok::<(u32, usize), DecodeError>(
            (v, varint_bytes(v as nat).len() as usize),
        ),
{
    let s = varint_bytes(v as nat) + rest;
    assert(s.subrange(0, varint_bytes(v as nat).len() as int) =~= varint_bytes(v as nat));
    assert(pow(128, 0) == 1) by {
        reveal(pow);
    }
    lemma_varint_len_bound(v as nat);
    lemma_scan_encoded(s, 0, 0, v as nat);
}

/// The value of the 7-bit groups of `s`, least significant first.
pub open spec fn groups_value(s: Seq<u8>) -> nat
    decreases s.len(),
{
    if s.len() == 0 {
        0
    } else {
        (s[0] / 2) as nat + 128 * groups_value(s.drop_first())
    }
}

/// The encoding of a value, byte by byte: every byte but the last has its
/// low bit clear, the last has it set, there are at most five, and the
/// groups in the upper seven bits add up to the value.
pub proof fn lemma_varint_form(v: nat)
    requires
        v <= max_value(),
    ensures
        1 <= varint_bytes(v).len() <= 5,
        forall|i: int| 0 <= i < varint_bytes(v).len() - 1 ==> #[trigger] varint_bytes(v)[i] % 2 == 0,
        varint_bytes(v).last() % 2 == 1,
        groups_value(varint_bytes(v)) == v,
{
    lemma_varint_len_bound(v);
    lemma_varint_form_any(v);
}

proof fn lemma_varint_form_any(v: nat)
    ensures
        forall|i: int| 0 <= i < varint_bytes(v).len() - 1 ==> #[trigger] varint_bytes(v)[i] % 2 == 0,
        varint_bytes(v).last() % 2 == 1,
        groups_value(varint_bytes(v)) == v,
    decreases v,
{
    let b = varint_bytes(v);
    if v < 128 {
        assert(b.drop_first() =~= Seq::<u8>::empty());
        assert(b[0] == v * 2 + 1);
        assert(groups_value(b) == (b[0] / 2) as nat + 128 * groups_value(b.drop_first()));
    } else {
        lemma_varint_form_any(v / 128);
        assert(b[0] == (v % 128) * 2);
        assert(groups_value(b) == (b[0] / 2) as nat + 128 * groups_value(b.drop_first()));
        let t = varint_bytes(v / 128);
        assert(b == seq![((v % 128) * 2) as u8] + t);
        assert(b.drop_first() =~= t);
        assert(t.len() >= 1) by {
            reveal_with_fuel(varint_bytes, 2);
        }
        assert forall|i: int| 0 <= i < b.len() - 1 implies #[trigger] b[i] % 2 == 0 by {
            if i > 0 {
                assert(b[i] == t[i - 1]);
            }
        }
        assert(b.last() == t.last());
        assert(v == v % 128 + 128 * (v / 128));
    }
}

} // verus!
