//! CRC-32 as used by IEEE 802.3: reflected polynomial 0xEDB88320, initial
//! register 0xFFFFFFFF, complemented output.

use vstd::prelude::*;

verus! {

/// The reflected IEEE polynomial.
pub const POLYNOMIAL: u32 = 0xedb8_8320;

/// One shift of the register.
pub open spec fn bit_step(c: u32) -> u32 {
    if c & 1 == 1 {
        (c >> 1) ^ 0xedb8_8320u32
    } else {
        c >> 1
    }
}

/// `n` shifts of the register.
pub open spec fn bit_steps(c: u32, n: nat) -> u32
    decreases n,
{
    if n == 0 {
        c
    } else {
        bit_steps(bit_step(c), (n - 1) as nat)
    }
}

/// The register after taking in byte `b`.
pub open spec fn byte_step(c: u32, b: u8) -> u32 {
    bit_steps(c ^ (b as u32), 8)
}

/// The register after taking in the bytes `s`, starting from `c`.
pub open spec fn update(c: u32, s: Seq<u8>) -> u32
    decreases s.len(),
{
    if s.len() == 0 {
        c
    } else {
        byte_step(update(c, s.drop_last()), s.last())
    }
}

/// The checksum of `s`.
pub open spec fn crc32_spec(s: Seq<u8>) -> u32 {
    update(0xffff_ffff, s) ^ 0xffff_ffff
}

/// Running checksum over bytes fed one at a time.
#[derive(Debug, Clone, Copy)]
pub struct Crc32 {
    register: u32,
}

impl Crc32 {
    /// The register content, before the final complement.
    pub closed spec fn register(&self) -> u32 {
        self.register
    }

    pub fn new() -> (r: Self)
        ensures
            r.register() == 0xffff_ffffu32,
    {
        Crc32 { register: 0xffff_ffff }
    }

    /// Takes in one byte.
    pub fn put_u8(&mut self, byte: u8)
        ensures
            final(self).register() == byte_step(old(self).register(), byte),
    {
        let mut c: u32 = self.register ^ (byte as u32);
        let ghost start = c;
        let mut k: usize = 0;
        while k < 8
            invariant
                k <= 8,
                bit_steps(start, 8) == bit_steps(c, (8 - k) as nat),
            decreases 8 - k,
        {
            c = if c & 1 == 1 {
                (c >> 1) ^ POLYNOMIAL
            } else {
                c >> 1
            };
            k = k + 1;
        }
        self.register = c;
    }

    /// Takes in all bytes of `data`, in order.
    pub fn put_slice(&mut self, data: &[u8])
        ensures
            final(self).register() == update(old(self).register(), data@),
    {
        let ghost c0 = self.register();
        let mut i: usize = 0;
        while i < data.len()
            invariant
                i <= data.len(),
                self.register() == update(c0, data@.take(i as int)),
            decreases data.len() - i,
        {
            self.put_u8(data[i]);
            proof {
                assert(data@.take(i + 1).drop_last() =~= data@.take(i as int));
            }
            i = i + 1;
        }
        assert(data@.take(i as int) =~= data@);
    }

    /// The checksum of the bytes taken in so far.
    pub fn value(&self) -> (r: u32)
        ensures
            r == self.register() ^ 0xffff_ffffu32,
    {
        self.register ^ 0xffff_ffff
    }
}

/// Computes the checksum of `data`.
pub fn crc32(data: &[u8]) -> (r: u32)
    ensures
        r == crc32_spec(data@),
{
    let mut crc = Crc32::new();
    crc.put_slice(data);
    crc.value()
}

proof fn lemma_bit_step_injective(a: u32, b: u32)
    requires
        a != b,
    ensures
        bit_step(a) != bit_step(b),
{
    assert(a != b ==> (if a & 1 == 1 { (a >> 1) ^ 0xedb8_8320u32 } else { a >> 1 }) != (if b & 1 == 1 {
        (b >> 1) ^ 0xedb8_8320u32
    } else {
        b >> 1
    })) by (bit_vector);
}

proof fn lemma_bit_steps_injective(a: u32, b: u32, n: nat)
    requires
        a != b,
    ensures
        bit_steps(a, n) != bit_steps(b, n),
    decreases n,
{
    if n > 0 {
        lemma_bit_step_injective(a, b);
        lemma_bit_steps_injective(bit_step(a), bit_step(b), (n - 1) as nat);
    }
}

/// Taking in one byte maps distinct (register, byte) inputs whose XOR
/// differs to distinct registers.
proof fn lemma_byte_step_injective(a: u32, x: u8, b: u32, y: u8)
    requires
        a ^ (x as u32) != b ^ (y as u32),
    ensures
        byte_step(a, x) != byte_step(b, y),
{
    lemma_bit_steps_injective(a ^ (x as u32), b ^ (y as u32), 8);
}

proof fn lemma_update_append(c: u32, a: Seq<u8>, b: Seq<u8>)
    ensures
        update(c, a + b) == update(update(c, a), b),
    decreases b.len(),
{
    if b.len() == 0 {
        assert(a + b =~= a);
    } else {
        assert((a + b).drop_last() =~= a + b.drop_last());
        lemma_update_append(c, a, b.drop_last());
    }
}

/// Distinct registers stay distinct over the same bytes.
proof fn lemma_update_injective(c1: u32, c2: u32, s: Seq<u8>)
    requires
        c1 != c2,
    ensures
        update(c1, s) != update(c2, s),
    decreases s.len(),
{
    if s.len() > 0 {
        lemma_update_injective(c1, c2, s.drop_last());
        let r1 = update(c1, s.drop_last());
        let r2 = update(c2, s.drop_last());
        let x = s.last();
        assert(r1 ^ (x as u32) != r2 ^ (x as u32)) by (bit_vector)
            requires
                r1 != r2,
        ;
        lemma_byte_step_injective(r1, x, r2, x);
    }
}

/// Two byte sequences that differ in exactly one byte have different
/// checksums: a corrupted byte is always detected.
pub proof fn lemma_crc_detects_byte_error(p: Seq<u8>, x: u8, y: u8, q: Seq<u8>)
    requires
        x != y,
    ensures
        crc32_spec(p + seq![x] + q) != crc32_spec(p + seq![y] + q),
{
    let r = update(0xffff_ffff, p);
    lemma_update_append(0xffff_ffff, p + seq![x], q);
    lemma_update_append(0xffff_ffff, p + seq![y], q);
    assert((p + seq![x]).drop_last() =~= p);
    assert((p + seq![y]).drop_last() =~= p);
    assert(r ^ (x as u32) != r ^ (y as u32)) by (bit_vector)
        requires
            x != y,
    ;
    lemma_byte_step_injective(r, x, r, y);
    lemma_update_injective(byte_step(r, x), byte_step(r, y), q);
    let u1 = update(0xffff_ffff, p + seq![x] + q);
    let u2 = update(0xffff_ffff, p + seq![y] + q);
    assert(u1 ^ 0xffff_ffffu32 != u2 ^ 0xffff_ffffu32) by (bit_vector)
        requires
            u1 != u2,
    ;
}

} // verus!
