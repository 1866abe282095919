//! Miscellaneous helpers.

use vstd::prelude::*;

verus! {

/// An encoded message kept as its bytes: encoding writes them out as they
/// are, decoding appends what it reads. It stands in for any message type.
#[derive(Debug, Clone, PartialEq, Eq)]
pub struct EncodedMessage {
    pub data: Vec<u8>,
}

impl EncodedMessage {
    /// The length of the encoding.
    pub fn encoded_len(&self) -> (r: usize)
        ensures
            r == self.data@.len(),
    {
        self.data.len()
    }

    /// Appends the bytes `more` that were read.
    pub fn merge(&mut self, more: &[u8])
        ensures
            final(self).data@ == old(self).data@ + more@,
    {
        let mut i: usize = 0;
        let ghost start = self.data@;
        while i < more.len()
            invariant
                i <= more@.len(),
                self.data@ == start + more@.take(i as int),
            decreases more@.len() - i,
        {
            self.data.push(more[i]);
            proof {
                assert(more@.take(i + 1) =~= more@.take(i as int).push(more@[i as int]));
                assert(self.data@ =~= start + more@.take(i + 1));
            }
            i = i + 1;
        }
        assert(more@.take(i as int) =~= more@);
    }

    pub fn clear(&mut self)
        ensures
            final(self).data@ == Seq::<u8>::empty(),
    {
        self.data.clear();
    }
}

impl Default for EncodedMessage {
    fn default() -> (r: Self)
        ensures
            r.data@ == Seq::<u8>::empty(),
    {
        EncodedMessage { data: Vec::new() }
    }
}

} // verus!
