//! The byte containers of outside crates that the codecs use: the buffer of
//! the `bytes` crate, and the fixed and small vectors of `arrayvec` and
//! `smallvec`.

use vstd::prelude::*;
use arrayvec::ArrayVec;
use bytes::BytesMut;
use smallvec::SmallVec;

verus! {

#[verifier::external_type_specification]
#[verifier::external_body]
pub struct ExBytesMut(bytes::BytesMut);

/// The bytes that a buffer holds, front first.
pub uninterp spec fn buffer_bytes(b: BytesMut) -> Seq<u8>;

/// Relies on `BytesMut::new`: the new buffer is empty.
#[verifier::external_body]
pub(crate) fn buffer_new() -> (r: BytesMut)
    ensures
        buffer_bytes(r) == Seq::<u8>::empty(),
{
    BytesMut::new()
}

/// Relies on `BytesMut`'s `Deref` to `[u8]`: the bytes held, as a slice.
#[verifier::external_body]
pub(crate) fn buffer_slice(b: &BytesMut) -> (r: &[u8])
    ensures
        r@ == buffer_bytes(*b),
{
    &b[..]
}

/// Relies on `Buf::advance` for `BytesMut`: drops the first `n` bytes; it
/// panics when `n` exceeds the length.
#[verifier::external_body]
pub(crate) fn buffer_advance(b: &mut BytesMut, n: usize)
    requires
        n <= buffer_bytes(*old(b)).len(),
    ensures
        buffer_bytes(*final(b)) == buffer_bytes(*old(b)).skip(n as int),
{
    bytes::Buf::advance(b, n)
}

/// Relies on `BufMut::put_u8` for `BytesMut`: appends one byte; growing the
/// buffer panics past `isize::MAX` bytes.
#[verifier::external_body]
pub(crate) fn buffer_put_u8(b: &mut BytesMut, x: u8)
    requires
        buffer_bytes(*old(b)).len() < isize::MAX,
    ensures
        buffer_bytes(*final(b)) == buffer_bytes(*old(b)).push(x),
{
    bytes::BufMut::put_u8(b, x)
}

#[verifier::external_type_specification]
#[verifier::external_body]
#[verifier::reject_recursive_types(T)]
pub struct ExArrayVec<T, const CAP: usize>(arrayvec::ArrayVec<T, CAP>);

/// The bytes that a five-byte array vector holds, front first.
pub uninterp spec fn array_bytes(v: ArrayVec<u8, 5>) -> Seq<u8>;

/// Relies on `ArrayVec::new`: the new vector is empty.
#[verifier::external_body]
pub(crate) fn array_new() -> (r: ArrayVec<u8, 5>)
    ensures
        array_bytes(r) == Seq::<u8>::empty(),
{
    ArrayVec::new()
}

/// Relies on `ArrayVec::push`: appends one byte; it panics when the vector
/// is full.
#[verifier::external_body]
pub(crate) fn array_push(v: &mut ArrayVec<u8, 5>, x: u8)
    requires
        array_bytes(*old(v)).len() < 5,
    ensures
        array_bytes(*final(v)) == array_bytes(*old(v)).push(x),
{
    v.push(x)
}

/// The data of a message stream message: a small vector of bytes, eight of
/// them held inline.
#[verifier::external_body]
#[derive(Debug, PartialEq, Eq)]
pub struct MessageData {
    inner: SmallVec<[u8; 8]>,
}

impl Clone for MessageData {
    /// Relies on `SmallVec`'s `Clone`: a copy of the bytes.
    #[verifier::external_body]
    fn clone(&self) -> (r: Self)
        ensures
            small_bytes(r) == small_bytes(*self),
    {
        MessageData { inner: self.inner.clone() }
    }
}

/// The bytes that message data holds, front first.
pub uninterp spec fn small_bytes(v: MessageData) -> Seq<u8>;

impl MessageData {
    /// Relies on `SmallVec::new`: the new vector is empty.
    #[verifier::external_body]
    pub(crate) fn new() -> (r: MessageData)
        ensures
            small_bytes(r) == Seq::<u8>::empty(),
    {
        MessageData { inner: SmallVec::new() }
    }

    /// Relies on `SmallVec::push`: appends one byte; growing the vector
    /// panics past `isize::MAX` bytes.
    #[verifier::external_body]
    pub(crate) fn push(&mut self, x: u8)
        requires
            small_bytes(*old(self)).len() < isize::MAX,
        ensures
            small_bytes(*final(self)) == small_bytes(*old(self)).push(x),
    {
        self.inner.push(x)
    }

    /// Relies on `SmallVec::as_slice`: the bytes held, as a slice.
    #[verifier::external_body]
    pub(crate) fn as_slice(&self) -> (r: &[u8])
        ensures
            r@ == small_bytes(*self),
    {
        self.inner.as_slice()
    }

    /// The number of bytes held.
    pub fn len(&self) -> (r: usize)
        ensures
            r == small_bytes(*self).len(),
    {
        self.as_slice().len()
    }

    /// The byte at position `i`.
    pub fn get(&self, i: usize) -> (r: u8)
        requires
            i < small_bytes(*self).len(),
        ensures
            r == small_bytes(*self)[i as int],
    {
        self.as_slice()[i]
    }

    /// Message data holding the bytes of `s`.
    pub fn from_slice(s: &[u8]) -> (r: MessageData)
        requires
            s@.len() < isize::MAX,
        ensures
            small_bytes(r) == s@,
    {
        let mut r = MessageData::new();
        let mut i: usize = 0;
        while i < s.len()
            invariant
                i <= s@.len(),
                s@.len() < isize::MAX,
                small_bytes(r) == s@.take(i as int),
            decreases s@.len() - i,
        {
            r.push(s[i]);
            proof {
                assert(s@.take(i + 1) =~= s@.take(i as int).push(s@[i as int]));
            }
            i = i + 1;
        }
        assert(s@.take(i as int) =~= s@);
        r
    }
}

} // verus!
