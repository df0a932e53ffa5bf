//! A single pixel-buffer slot with a shared-ownership count.

use vstd::prelude::*;

verus! {

/// A fixed-length byte buffer carrying an ownership count.
///
/// The count is the number of outstanding handles on the buffer's storage;
/// the pool that owns the slot always accounts for one of them.  The bytes
/// may be overwritten only while the count equals one, so a holder of a
/// second handle never sees its snapshot change underneath it.
pub struct Frame {
    count: usize,
    buf: Vec<u8>,
}

impl Frame {
    /// The ownership count: how many handles reference this storage.
    pub closed spec fn spec_count(self) -> int {
        self.count as int
    }

    /// The bytes currently stored in the buffer.
    pub closed spec fn bytes(self) -> Seq<u8> {
        self.buf@
    }

    /// Creates a slot of `size` zeroed bytes whose sole owner is the caller.
    pub fn new(size: usize) -> (f: Frame)
        ensures
            f.spec_count() == 1,
            f.bytes() == Seq::new(size as nat, |i: int| 0u8),
    {
        let mut buf: Vec<u8> = Vec::new();
        let mut i: usize = 0;
        while i < size
            invariant
                i <= size,
                buf@ == Seq::new(i as nat, |j: int| 0u8),
            decreases size - i,
        {
            buf.push(0);
            i = i + 1;
            proof {
                assert(buf@ =~= Seq::new(i as nat, |j: int| 0u8));
            }
        }
        Frame { count: 1, buf }
    }

    /// Reads the ownership count of `this`'s storage.
    pub fn count(this: &Frame) -> (c: usize)
        ensures
            c == this.spec_count(),
    {
        this.count
    }

    /// An immutable view of the buffer, valid for the handle's lifetime.
    pub fn as_bytes(&self) -> (r: &[u8])
        ensures
            r@ == self.bytes(),
    {
        self.buf.as_slice()
    }

    /// Overwrites the contents with `data`.
    ///
    /// The caller must hold the only outstanding handle (count equal to
    /// one): once a second holder exists the bytes are immutable for that
    /// holder's lifetime, and writing would tear its snapshot.
    pub fn copy_from(&mut self, data: &[u8])
        requires
            old(self).spec_count() == 1,
            data@.len() == old(self).bytes().len(),
        ensures
            final(self).spec_count() == 1,
            final(self).bytes() == data@,
    {
        let n = data.len();
        let mut i: usize = 0;
        while i < n
            invariant
                i <= n,
                n == data@.len(),
                self.buf@.len() == n,
                self.count == old(self).count,
                forall|j: int| 0 <= j < i ==> self.buf@[j] == data@[j],
            decreases n - i,
        {
            let b = data[i];
            self.buf[i] = b;
            i = i + 1;
        }
        proof {
            assert(self.buf@ =~= data@);
        }
    }

    /// Records one more outstanding handle on this storage.
    pub(crate) fn inc_count(&mut self)
        requires
            old(self).spec_count() < usize::MAX,
        ensures
            final(self).spec_count() == old(self).spec_count() + 1,
            final(self).bytes() == old(self).bytes(),
    {
        self.count = self.count + 1;
    }

    /// Records that one outstanding handle released this storage.
    pub(crate) fn dec_count(&mut self)
        requires
            old(self).spec_count() >= 1,
        ensures
            final(self).spec_count() == old(self).spec_count() - 1,
            final(self).bytes() == old(self).bytes(),
    {
        self.count = self.count - 1;
    }
}

} // verus!
