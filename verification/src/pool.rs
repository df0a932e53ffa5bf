//! A fixed pool of frame slots with ownership-count bookkeeping.
//!
//! The pool owns every slot and accounts for one handle per slot at all
//! times.  "Free" is derived purely from the ownership count: a slot whose
//! count is one has no holder beyond the pool itself, so it may be
//! overwritten.  Publishing a frame layers one more counted reference on
//! its slot, and every consumer handle handed out by `last_published`
//! counts as well, so a slot a consumer still holds is never reused.

use vstd::prelude::*;

use crate::errors::TickError;
use crate::frame::Frame;

verus! {

/// A counted reference to one slot of a `FrameManager`.
///
/// A handle returned by `last_published` accounts for one unit of its
/// slot's ownership count until it is given back through `release`.  A
/// handle returned by `get_free_frame` is a writing lease: the slot's
/// count stays at one while the producer fills it, and `publish` consumes
/// the lease.
#[derive(Debug)]
pub struct FrameHandle {
    idx: usize,
}

impl FrameHandle {
    /// The index of the slot this handle refers to.
    pub closed spec fn id(self) -> int {
        self.idx as int
    }

    /// Reads the slot index this handle refers to.
    pub fn index(&self) -> (i: usize)
        ensures
            i == self.id(),
    {
        self.idx
    }
}

/// A fixed collection of frame slots and the most recently published one.
///
/// The slot table is created once and never grows: the pool must hold more
/// slots than the largest number of simultaneously outstanding consumer
/// handles, or acquisition starves until a consumer releases one.
pub struct FrameManager {
    frame_size: usize,
    frames: Vec<Frame>,
    last_updated: Option<usize>,
}

impl FrameManager {
    /// The number of slots, fixed at construction.
    pub closed spec fn num_slots(self) -> int {
        self.frames@.len() as int
    }

    /// The byte length of every slot's buffer.
    pub closed spec fn slot_size(self) -> int {
        self.frame_size as int
    }

    /// The ownership count of slot `i`.
    pub closed spec fn count_of(self, i: int) -> int {
        self.frames@[i].spec_count()
    }

    /// The bytes stored in slot `i`.
    pub closed spec fn bytes_of(self, i: int) -> Seq<u8> {
        self.frames@[i].bytes()
    }

    /// The index of the most recently published slot, if any.
    pub closed spec fn published(self) -> Option<int> {
        match self.last_updated {
            Some(j) => Some(j as int),
            None => None,
        }
    }

    /// The bytes of the most recently published frame, if any.
    pub open spec fn published_bytes(self) -> Option<Seq<u8>> {
        match self.published() {
            Some(j) => Some(self.bytes_of(j)),
            None => None,
        }
    }

    /// Well-formedness: the pool accounts for one handle per slot, every
    /// buffer has the fixed slot length, and a published slot carries the
    /// published reference on top of the pool's own.
    pub open spec fn wf(self) -> bool {
        &&& forall|i: int| 0 <= i < self.num_slots() ==> #[trigger] self.count_of(i) >= 1
        &&& forall|i: int|
            0 <= i < self.num_slots() ==> (#[trigger] self.bytes_of(i)).len() == self.slot_size()
        &&& match self.published() {
            Some(j) => 0 <= j < self.num_slots() && self.count_of(j) >= 2,
            None => true,
        }
    }

    /// Creates a pool of `slot_count` slots, each holding `frame_size`
    /// zeroed bytes owned only by the pool, with nothing published yet.
    pub fn new(frame_size: usize, slot_count: usize) -> (m: FrameManager)
        ensures
            m.wf(),
            m.num_slots() == slot_count,
            m.slot_size() == frame_size,
            m.published() is None,
            forall|i: int| 0 <= i < slot_count ==> #[trigger] m.count_of(i) == 1,
            forall|i: int|
                0 <= i < slot_count ==> #[trigger] m.bytes_of(i) == Seq::new(
                    frame_size as nat,
                    |j: int| 0u8,
                ),
    {
        let mut frames: Vec<Frame> = Vec::new();
        let mut i: usize = 0;
        while i < slot_count
            invariant
                i <= slot_count,
                frames@.len() == i,
                forall|k: int| 0 <= k < i ==> #[trigger] frames@[k].spec_count() == 1,
                forall|k: int|
                    0 <= k < i ==> #[trigger] frames@[k].bytes() == Seq::new(
                        frame_size as nat,
                        |j: int| 0u8,
                    ),
            decreases slot_count - i,
        {
            frames.push(Frame::new(frame_size));
            i = i + 1;
        }
        FrameManager { frame_size, frames, last_updated: None }
    }

    /// Scans the slots in index order and returns a writing lease on the
    /// first slot whose ownership count equals one, meaning no holder
    /// beyond the pool references it.  Fails with `PoolExhausted`, without
    /// blocking, when every slot is still held.
    pub fn get_free_frame(&self) -> (r: Result<FrameHandle, TickError>)
        ensures
            match r {
                Ok(h) => {
                    &&& 0 <= h.id() < self.num_slots()
                    &&& self.count_of(h.id()) == 1
                    &&& forall|i: int| 0 <= i < h.id() ==> #[trigger] self.count_of(i) != 1
                },
                Err(e) => {
                    &&& e == TickError::PoolExhausted
                    &&& forall|i: int|
                        0 <= i < self.num_slots() ==> #[trigger] self.count_of(i) != 1
                },
            },
    {
        let n = self.frames.len();
        let mut i: usize = 0;
        while i < n
            invariant
                i <= n,
                n == self.frames@.len(),
                forall|k: int| 0 <= k < i ==> #[trigger] self.count_of(k) != 1,
            decreases n - i,
        {
            if Frame::count(&self.frames[i]) == 1 {
                return Ok(FrameHandle { idx: i });
            }
            i = i + 1;
        }
        Err(TickError::PoolExhausted)
    }

    /// Overwrites the slot under the lease `h` with `data`.  The slot's
    /// count must equal one: no consumer can be watching it, and it is not
    /// the published frame.
    pub fn copy_into(&mut self, h: &FrameHandle, data: &[u8])
        requires
            old(self).wf(),
            0 <= h.id() < old(self).num_slots(),
            old(self).count_of(h.id()) == 1,
            data@.len() == old(self).slot_size(),
        ensures
            final(self).wf(),
            final(self).num_slots() == old(self).num_slots(),
            final(self).slot_size() == old(self).slot_size(),
            final(self).published() == old(self).published(),
            final(self).bytes_of(h.id()) == data@,
            forall|i: int| 0 <= i < old(self).num_slots() ==> #[trigger] final(self).count_of(i)
                == old(self).count_of(i),
            forall|i: int|
                0 <= i < old(self).num_slots() && i != h.id() ==> #[trigger] final(self).bytes_of(i)
                    == old(self).bytes_of(i),
    {
        proof {
            assert(old(self).bytes_of(h.id()).len() == old(self).slot_size());
        }
        let f = &mut self.frames[h.idx];
        f.copy_from(data);
        proof {
            let pre = *old(self);
            assert forall|i: int|
                0 <= i < pre.num_slots() && i != h.id() implies #[trigger] self.count_of(i)
                == pre.count_of(i) && #[trigger] self.bytes_of(i) == pre.bytes_of(i) by {
                assert(self.frames@[i] == pre.frames@[i]);
            }
            assert forall|i: int| 0 <= i < self.num_slots() implies #[trigger] self.count_of(i)
                >= 1 by {
                if i != h.id() {
                    assert(pre.count_of(i) >= 1);
                }
            }
            assert forall|i: int|
                0 <= i < self.num_slots() implies (#[trigger] self.bytes_of(i)).len()
                == self.slot_size() by {
                if i != h.id() {
                    assert(pre.bytes_of(i).len() == pre.slot_size());
                }
            }
        }
    }

    /// Makes the slot under the lease `h` the published frame: the new
    /// published reference raises its count, and the reference to the
    /// previously published slot, if any, is released.  This is a
    /// reference swap, not a byte copy.
    pub fn publish(&mut self, h: FrameHandle)
        requires
            old(self).wf(),
            0 <= h.id() < old(self).num_slots(),
            old(self).count_of(h.id()) == 1,
        ensures
            final(self).wf(),
            final(self).num_slots() == old(self).num_slots(),
            final(self).slot_size() == old(self).slot_size(),
            final(self).published() == Some(h.id()),
            final(self).count_of(h.id()) == 2,
            match old(self).published() {
                Some(j) => final(self).count_of(j) == old(self).count_of(j) - 1,
                None => true,
            },
            forall|i: int|
                0 <= i < old(self).num_slots() && i != h.id() && old(self).published() != Some(i)
                    ==> #[trigger] final(self).count_of(i) == old(self).count_of(i),
            forall|i: int|
                0 <= i < old(self).num_slots() ==> #[trigger] final(self).bytes_of(i) == old(
                    self,
                ).bytes_of(i),
    {
        match self.last_updated {
            Some(j) => {
                proof {
                    assert(old(self).count_of(j as int) >= 2);
                    assert(j as int != h.id());
                }
                let fj = &mut self.frames[j];
                fj.dec_count();
                proof {
                    assert(self.frames@[h.id()] == old(self).frames@[h.id()]);
                }
            },
            None => {},
        }
        let f = &mut self.frames[h.idx];
        f.inc_count();
        self.last_updated = Some(h.idx);
        proof {
            let pre = *old(self);
            assert forall|i: int|
                0 <= i < pre.num_slots() && i != h.id() && pre.published() != Some(i)
                    implies #[trigger] self.count_of(i) == pre.count_of(i) by {
                assert(self.frames@[i] == pre.frames@[i]);
            }
            assert forall|i: int| 0 <= i < pre.num_slots() implies #[trigger] self.bytes_of(i)
                == pre.bytes_of(i) by {
                if i != h.id() && pre.published() != Some(i) {
                    assert(self.frames@[i] == pre.frames@[i]);
                }
            }
            assert forall|i: int| 0 <= i < self.num_slots() implies #[trigger] self.count_of(i)
                >= 1 by {
                if i != h.id() && pre.published() != Some(i) {
                    assert(pre.count_of(i) >= 1);
                }
            }
            assert forall|i: int|
                0 <= i < self.num_slots() implies (#[trigger] self.bytes_of(i)).len()
                == self.slot_size() by {
                assert(pre.bytes_of(i).len() == pre.slot_size());
            }
        }
    }

    /// Returns a freshly counted consumer handle on the published frame,
    /// or `None` before the first publish.  The handle's unit of the
    /// ownership count is held until `release`.
    pub fn last_published(&mut self) -> (r: Option<FrameHandle>)
        requires
            old(self).wf(),
            match old(self).published() {
                Some(j) => old(self).count_of(j) < usize::MAX,
                None => true,
            },
        ensures
            last_published_step(*old(self), *final(self), r),
    {
        match self.last_updated {
            Some(j) => {
                let fj = &mut self.frames[j];
                fj.inc_count();
                proof {
                    let pre = *old(self);
                    assert forall|i: int|
                        0 <= i < pre.num_slots() && i != j as int
                            implies #[trigger] self.count_of(i) == pre.count_of(i)
                            && #[trigger] self.bytes_of(i) == pre.bytes_of(i) by {
                        assert(self.frames@[i] == pre.frames@[i]);
                    }
                    assert forall|i: int| 0 <= i < self.num_slots() implies #[trigger] self
                        .count_of(i) >= 1 by {
                        if i != j as int {
                            assert(pre.count_of(i) >= 1);
                        }
                    }
                    assert forall|i: int|
                        0 <= i < self.num_slots() implies (#[trigger] self.bytes_of(i)).len()
                        == self.slot_size() by {
                        assert(pre.bytes_of(i).len() == pre.slot_size());
                    }
                }
                Some(FrameHandle { idx: j })
            },
            None => None,
        }
    }

    /// Gives a consumer handle back: one unit of the slot's ownership
    /// count is released, and the slot becomes reusable once no further
    /// holder remains.
    pub fn release(&mut self, h: FrameHandle)
        requires
            old(self).wf(),
            0 <= h.id() < old(self).num_slots(),
            old(self).count_of(h.id()) >= 2,
            old(self).published() == Some(h.id()) ==> old(self).count_of(h.id()) >= 3,
        ensures
            final(self).wf(),
            final(self).num_slots() == old(self).num_slots(),
            final(self).slot_size() == old(self).slot_size(),
            final(self).published() == old(self).published(),
            final(self).count_of(h.id()) == old(self).count_of(h.id()) - 1,
            forall|i: int|
                0 <= i < old(self).num_slots() && i != h.id() ==> #[trigger] final(self).count_of(i)
                    == old(self).count_of(i),
            forall|i: int|
                0 <= i < old(self).num_slots() ==> #[trigger] final(self).bytes_of(i) == old(
                    self,
                ).bytes_of(i),
    {
        let f = &mut self.frames[h.idx];
        f.dec_count();
        proof {
            let pre = *old(self);
            assert forall|i: int|
                0 <= i < pre.num_slots() && i != h.id() implies #[trigger] self.count_of(i)
                == pre.count_of(i) by {
                assert(self.frames@[i] == pre.frames@[i]);
            }
            assert forall|i: int| 0 <= i < pre.num_slots() implies #[trigger] self.bytes_of(i)
                == pre.bytes_of(i) by {
                if i != h.id() {
                    assert(self.frames@[i] == pre.frames@[i]);
                }
            }
            assert forall|i: int| 0 <= i < self.num_slots() implies #[trigger] self.count_of(i)
                >= 1 by {
                if i != h.id() {
                    assert(pre.count_of(i) >= 1);
                }
            }
            assert forall|i: int|
                0 <= i < self.num_slots() implies (#[trigger] self.bytes_of(i)).len()
                == self.slot_size() by {
                assert(pre.bytes_of(i).len() == pre.slot_size());
            }
        }
    }

    /// An immutable view of the bytes under `h`, valid while the borrow
    /// lasts.
    pub fn frame_bytes(&self, h: &FrameHandle) -> (r: &[u8])
        requires
            0 <= h.id() < self.num_slots(),
        ensures
            r@ == self.bytes_of(h.id()),
    {
        self.frames[h.idx].as_bytes()
    }

    /// Reads the number of slots.
    pub fn slot_count(&self) -> (n: usize)
        ensures
            n == self.num_slots(),
    {
        self.frames.len()
    }

    /// Reads the ownership count of the slot under `h`.
    pub fn count_of_handle(&self, h: &FrameHandle) -> (c: usize)
        requires
            0 <= h.id() < self.num_slots(),
        ensures
            c == self.count_of(h.id()),
    {
        Frame::count(&self.frames[h.idx])
    }

    /// Whether a frame has been published since construction.
    pub fn has_published(&self) -> (b: bool)
        ensures
            b == (self.published() is Some),
    {
        match self.last_updated {
            Some(_) => true,
            None => false,
        }
    }
}

/// Nothing about the pool changed: same shape, same published index, and
/// every slot keeps its count and its bytes.  A failed tick leaves the
/// pool in exactly this relation to its previous state.
pub open spec fn pool_unchanged(pre: FrameManager, post: FrameManager) -> bool {
    &&& post.num_slots() == pre.num_slots()
    &&& post.slot_size() == pre.slot_size()
    &&& post.published() == pre.published()
    &&& forall|i: int| 0 <= i < pre.num_slots() ==> #[trigger] post.count_of(i) == pre.count_of(i)
    &&& forall|i: int| 0 <= i < pre.num_slots() ==> #[trigger] post.bytes_of(i) == pre.bytes_of(i)
}

/// The full observable effect of one `last_published` call: the returned
/// handle, if any, points at the published slot and carries one fresh unit
/// of its count; every buffer, the published index, the slot table's shape
/// and every other slot's count are untouched.
pub open spec fn last_published_step(
    pre: FrameManager,
    post: FrameManager,
    r: Option<FrameHandle>,
) -> bool {
    &&& pre.wf() ==> post.wf()
    &&& post.num_slots() == pre.num_slots()
    &&& post.slot_size() == pre.slot_size()
    &&& post.published() == pre.published()
    &&& (r is Some <==> pre.published() is Some)
    &&& forall|i: int| 0 <= i < pre.num_slots() ==> #[trigger] post.bytes_of(i) == pre.bytes_of(i)
    &&& match r {
        Some(h) => {
            &&& pre.published() == Some(h.id())
            &&& post.count_of(h.id()) == pre.count_of(h.id()) + 1
            &&& forall|i: int|
                0 <= i < pre.num_slots() && i != h.id() ==> #[trigger] post.count_of(i)
                    == pre.count_of(i)
        },
        None => forall|i: int|
            0 <= i < pre.num_slots() ==> #[trigger] post.count_of(i) == pre.count_of(i),
    }
}

/// What a consumer reads is the published snapshot: a handle returned by
/// `last_published` is backed by exactly the published bytes, and the
/// read leaves them unchanged.
pub proof fn lemma_consumer_reads_published(
    pre: FrameManager,
    post: FrameManager,
    r: Option<FrameHandle>,
)
    requires
        pre.wf(),
        last_published_step(pre, post, r),
        r is Some,
    ensures
        post.published_bytes() == pre.published_bytes(),
        Some(post.bytes_of(r.unwrap().id())) == pre.published_bytes(),
{
    let h = r.unwrap();
    assert(pre.published() == Some(h.id()));
    assert(0 <= h.id() < pre.num_slots());
    assert(post.bytes_of(h.id()) == pre.bytes_of(h.id()));
}

/// Exhaustion at the boundary: when as many consumer handles are
/// outstanding as there are slots, each on a slot of its own and each
/// raising its slot's count past one, no slot is left with a count of
/// one — so by `get_free_frame`'s contract the next acquisition fails
/// with `PoolExhausted` instead of blocking or reusing a held slot.
pub proof fn lemma_all_slots_held_exhausts_pool(m: FrameManager, held: Seq<int>)
    requires
        held.no_duplicates(),
        held.len() == m.num_slots(),
        forall|k: int| 0 <= k < held.len() ==> 0 <= #[trigger] held[k] < m.num_slots(),
        forall|k: int| 0 <= k < held.len() ==> m.count_of(#[trigger] held[k]) >= 2,
    ensures
        forall|i: int| 0 <= i < m.num_slots() ==> #[trigger] m.count_of(i) != 1,
{
    let n = m.num_slots();
    let ids = held.to_set();
    held.unique_seq_to_set();
    vstd::set_lib::lemma_int_range(0, n);
    assert forall|i: int| 0 <= i < n implies #[trigger] m.count_of(i) != 1 by {
        if m.count_of(i) == 1 {
            assert(!ids.contains(i)) by {
                if ids.contains(i) {
                    let k = choose|k: int| 0 <= k < held.len() && held[k] == i;
                    assert(m.count_of(held[k]) >= 2);
                }
            }
            assert(ids.subset_of(vstd::set_lib::set_int_range(0, n))) by {
                assert forall|x: int| ids.contains(x) implies vstd::set_lib::set_int_range(
                    0,
                    n,
                ).contains(x) by {
                    let k = choose|k: int| 0 <= k < held.len() && held[k] == x;
                    assert(0 <= held[k] < n);
                }
            }
            ids.lemma_subset_not_in_lt(vstd::set_lib::set_int_range(0, n), i);
        }
    }
}

/// Idempotent reads: two `last_published` calls with no intervening
/// publish either both find no frame, or both return handles backed by
/// identical bytes.
pub proof fn lemma_last_published_idempotent(
    m0: FrameManager,
    m1: FrameManager,
    m2: FrameManager,
    r1: Option<FrameHandle>,
    r2: Option<FrameHandle>,
)
    requires
        m0.wf(),
        last_published_step(m0, m1, r1),
        last_published_step(m1, m2, r2),
    ensures
        r1 is Some <==> r2 is Some,
        r1 is Some && r2 is Some ==> {
            &&& r1.unwrap().id() == r2.unwrap().id()
            &&& m1.bytes_of(r1.unwrap().id()) == m2.bytes_of(r2.unwrap().id())
        },
{
    if r1 is Some {
        let h1 = r1.unwrap();
        let h2 = r2.unwrap();
        assert(m0.published() == Some(h1.id()));
        assert(m1.published() == Some(h1.id()));
        assert(m1.published() == Some(h2.id()));
        assert(h1.id() == h2.id());
    }
}

} // verus!
