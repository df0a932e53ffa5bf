//! The tick orchestrator: runs the engine step, sizes the engine memory,
//! and drives the pool's acquire, copy, publish sequence.
//!
//! A tick either fully completes and publishes a fresh frame, or reports
//! an error and leaves the pool untouched, so the previously published
//! frame stays visible — stale, but never corrupt.

use vstd::arithmetic::div_mod::lemma_fundamental_div_mod;
use vstd::prelude::*;

use crate::engine::Engine;
use crate::engine::PAGE_BYTES;
use crate::errors::TickError;
use crate::pool::FrameHandle;
use crate::pool::FrameManager;
use crate::pool::last_published_step;
use crate::pool::pool_unchanged;

verus! {

/// The driver's lifecycle: ticks are produced only while `Running`.
#[derive(Clone, Copy, Debug, PartialEq, Eq, Structural)]
pub enum State {
    Idle,
    Running,
}

/// The number of whole pages that must be added to a memory of `current`
/// bytes so that it holds at least `required` bytes: the deficit rounded
/// up to the engine's page granularity.
pub fn pages_needed(required: u64, current: u64) -> (r: u64)
    requires
        current < required,
    ensures
        current + r * PAGE_BYTES >= required,
        current + (r - 1) * PAGE_BYTES < required,
{
    let deficit = required - current;
    let whole = deficit / PAGE_BYTES;
    let rem = deficit % PAGE_BYTES;
    proof {
        lemma_fundamental_div_mod(deficit as int, PAGE_BYTES as int);
        assert(whole < 0xFFFF_FFFF_FFFF_FFFFu64) by (nonlinear_arith)
            requires
                deficit == 65536 * whole + rem,
                rem >= 0,
                deficit <= 0xFFFF_FFFF_FFFF_FFFFu64,
        ;
    }
    if rem == 0 {
        whole
    } else {
        whole + 1
    }
}

/// Grows the engine memory, if needed, until it holds at least `required`
/// bytes, asking for the deficit rounded up to whole pages, and re-reads
/// the size afterwards: on success the returned size is the engine's own
/// answer and is at least `required`.
pub fn ensure_capacity(engine: &mut Engine, required: u64) -> (r: Result<u64, TickError>)
    ensures
        (match r {
            Ok(size) => size >= required,
            Err(e) => e == TickError::MemoryFault,
        }),
{
    let size = engine.data_size();
    if size >= required {
        return Ok(size);
    }
    let pages = pages_needed(required, size);
    if pages > 0xFFFF_FFFFu64 {
        return Err(TickError::MemoryFault);
    }
    match engine.grow(pages as u32) {
        Ok(_) => {},
        Err(e) => {
            return Err(e);
        },
    }
    let new_size = engine.data_size();
    if new_size < required {
        return Err(TickError::MemoryFault);
    }
    Ok(new_size)
}

/// Orchestrates the tick cadence over one engine, one scratch copy of the
/// engine memory, and one frame pool.
pub struct Driver {
    engine: Engine,
    width: u32,
    height: u32,
    bytes_required: u64,
    tick_interval_ms: u64,
    scratch: Vec<u8>,
    frame_manager: FrameManager,
    state: State,
}

impl Driver {
    /// The frame pool the driver publishes into.
    pub closed spec fn pool(self) -> FrameManager {
        self.frame_manager
    }

    /// The driver's lifecycle state.
    pub closed spec fn lifecycle(self) -> State {
        self.state
    }

    /// The byte length of one frame: width times height times four bytes
    /// per RGBA pixel.
    pub closed spec fn required_len(self) -> int {
        self.bytes_required as int
    }

    /// The image width, fixed at construction.
    pub closed spec fn image_width(self) -> int {
        self.width as int
    }

    /// The image height, fixed at construction.
    pub closed spec fn image_height(self) -> int {
        self.height as int
    }

    /// The tick cadence in milliseconds, fixed at construction.  The
    /// driver itself never sleeps: whoever runs the loop reads this.
    pub closed spec fn tick_interval(self) -> int {
        self.tick_interval_ms as int
    }

    /// Reads the tick cadence in milliseconds.
    pub fn tick_interval_ms(&self) -> (t: u64)
        ensures
            t == self.tick_interval(),
    {
        self.tick_interval_ms
    }

    /// The bytes most recently copied out of the engine memory.
    pub closed spec fn last_copy(self) -> Seq<u8> {
        self.scratch@
    }

    /// Well-formedness: the pool is well formed, its slots are exactly one
    /// frame long, and the scratch copy is too.
    pub open spec fn wf(self) -> bool {
        &&& self.pool().wf()
        &&& self.pool().slot_size() == self.required_len()
        &&& self.last_copy().len() == self.required_len()
        &&& self.required_len() == self.image_width() * self.image_height() * 4
    }

    /// Creates an idle driver around a loaded engine, with a pool of
    /// `slot_count` frames sized for `width` by `height` RGBA images,
    /// a tick cadence of `tick_interval_ms`, and nothing published yet.
    pub fn new(
        engine: Engine,
        width: u32,
        height: u32,
        slot_count: usize,
        tick_interval_ms: u64,
    ) -> (d: Driver)
        requires
            width as int * height as int * 4 <= u32::MAX as int,
        ensures
            d.wf(),
            d.lifecycle() == State::Idle,
            d.image_width() == width,
            d.image_height() == height,
            d.required_len() == width as int * height as int * 4,
            d.tick_interval() == tick_interval_ms,
            d.pool().num_slots() == slot_count,
            d.pool().published() is None,
            forall|i: int| 0 <= i < slot_count ==> #[trigger] d.pool().count_of(i) == 1,
    {
        let bytes_required = (width as u64) * (height as u64) * 4;
        let len = bytes_required as usize;
        let mut scratch: Vec<u8> = Vec::new();
        let mut i: usize = 0;
        while i < len
            invariant
                i <= len,
                scratch@.len() == i,
            decreases len - i,
        {
            scratch.push(0);
            i = i + 1;
        }
        let frame_manager = FrameManager::new(len, slot_count);
        Driver {
            engine,
            width,
            height,
            bytes_required,
            tick_interval_ms,
            scratch,
            frame_manager,
            state: State::Idle,
        }
    }

    /// Starts the tick cadence: `Idle` becomes `Running`; everything else
    /// is untouched.
    pub fn start(&mut self)
        ensures
            final(self).lifecycle() == State::Running,
            final(self).pool() == old(self).pool(),
            final(self).last_copy() == old(self).last_copy(),
            final(self).required_len() == old(self).required_len(),
            final(self).image_width() == old(self).image_width(),
            final(self).image_height() == old(self).image_height(),
            old(self).wf() ==> final(self).wf(),
    {
        self.state = State::Running;
    }

    /// Stops the tick cadence: the driver returns to `Idle`; everything
    /// else is untouched.
    pub fn stop(&mut self)
        ensures
            final(self).lifecycle() == State::Idle,
            final(self).pool() == old(self).pool(),
            final(self).last_copy() == old(self).last_copy(),
            final(self).required_len() == old(self).required_len(),
            final(self).image_width() == old(self).image_width(),
            final(self).image_height() == old(self).image_height(),
            old(self).wf() ==> final(self).wf(),
    {
        self.state = State::Idle;
    }

    /// One production cycle: step the engine, make sure its memory holds a
    /// whole frame, copy that frame out, and publish it into a free slot.
    ///
    /// On success the published frame holds exactly the bytes of this
    /// tick's copy.  On any failure the pool is untouched, so consumers
    /// keep seeing the previous frame; `PoolExhausted` in particular means
    /// every slot was still held when the tick looked.
    pub fn tick(&mut self) -> (r: Result<(), TickError>)
        requires
            old(self).wf(),
            old(self).lifecycle() == State::Running,
        ensures
            final(self).wf(),
            final(self).lifecycle() == State::Running,
            final(self).required_len() == old(self).required_len(),
            final(self).image_width() == old(self).image_width(),
            final(self).image_height() == old(self).image_height(),
            final(self).pool().num_slots() == old(self).pool().num_slots(),
            (match r {
                Ok(_) => {
                    &&& final(self).pool().published() is Some
                    &&& final(self).pool().published_bytes() == Some(final(self).last_copy())
                },
                Err(e) => {
                    &&& pool_unchanged(old(self).pool(), final(self).pool())
                    &&& (e == TickError::PoolExhausted ==> forall|i: int|
                        0 <= i < old(self).pool().num_slots()
                            ==> #[trigger] old(self).pool().count_of(i) != 1)
                },
            }),
    {
        match self.engine.step() {
            Ok(_) => {},
            Err(e) => {
                return Err(e);
            },
        }
        match ensure_capacity(&mut self.engine, self.bytes_required) {
            Ok(_size) => {},
            Err(e) => {
                return Err(e);
            },
        }
        let h = match self.frame_manager.get_free_frame() {
            Ok(h) => h,
            Err(e) => {
                return Err(e);
            },
        };
        match self.engine.read_into(0, &mut self.scratch) {
            Ok(_) => {},
            Err(e) => {
                return Err(e);
            },
        }
        self.frame_manager.copy_into(&h, self.scratch.as_slice());
        self.frame_manager.publish(h);
        Ok(())
    }

    /// A freshly counted consumer handle on the published frame, or `None`
    /// before the first successful tick.
    pub fn last_published(&mut self) -> (r: Option<FrameHandle>)
        requires
            old(self).wf(),
            (match old(self).pool().published() {
                Some(j) => old(self).pool().count_of(j) < usize::MAX,
                None => true,
            }),
        ensures
            final(self).wf(),
            final(self).lifecycle() == old(self).lifecycle(),
            final(self).last_copy() == old(self).last_copy(),
            final(self).required_len() == old(self).required_len(),
            final(self).image_width() == old(self).image_width(),
            final(self).image_height() == old(self).image_height(),
            last_published_step(old(self).pool(), final(self).pool(), r),
    {
        self.frame_manager.last_published()
    }

    /// Gives a consumer handle back to the pool.
    pub fn release(&mut self, h: FrameHandle)
        requires
            old(self).wf(),
            0 <= h.id() < old(self).pool().num_slots(),
            old(self).pool().count_of(h.id()) >= 2,
            old(self).pool().published() == Some(h.id()) ==> old(self).pool().count_of(h.id())
                >= 3,
        ensures
            final(self).wf(),
            final(self).lifecycle() == old(self).lifecycle(),
            final(self).last_copy() == old(self).last_copy(),
            final(self).required_len() == old(self).required_len(),
            final(self).pool().published() == old(self).pool().published(),
            final(self).pool().num_slots() == old(self).pool().num_slots(),
            final(self).pool().count_of(h.id()) == old(self).pool().count_of(h.id()) - 1,
            forall|i: int|
                0 <= i < old(self).pool().num_slots() && i != h.id()
                    ==> #[trigger] final(self).pool().count_of(i) == old(self).pool().count_of(i),
            forall|i: int|
                0 <= i < old(self).pool().num_slots() ==> #[trigger] final(self).pool().bytes_of(i)
                    == old(self).pool().bytes_of(i),
    {
        self.frame_manager.release(h)
    }

    /// An immutable view of the bytes under a handle.
    pub fn frame_bytes(&self, h: &FrameHandle) -> (r: &[u8])
        requires
            0 <= h.id() < self.pool().num_slots(),
        ensures
            r@ == self.pool().bytes_of(h.id()),
    {
        self.frame_manager.frame_bytes(h)
    }

    /// Whether a frame has been published since construction.
    pub fn has_published(&self) -> (b: bool)
        ensures
            b == (self.pool().published() is Some),
    {
        self.frame_manager.has_published()
    }

    /// Reads the ownership count of the slot under `h`.
    pub fn count_of_handle(&self, h: &FrameHandle) -> (c: usize)
        requires
            0 <= h.id() < self.pool().num_slots(),
        ensures
            c == self.pool().count_of(h.id()),
    {
        self.frame_manager.count_of_handle(h)
    }
}

} // verus!
