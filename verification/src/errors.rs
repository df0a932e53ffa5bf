//! Error kinds for a production cycle (one tick).

use vstd::prelude::*;

verus! {

/// The ways a single tick can fail.  Every failure is tick-local: the
/// previously published frame stays visible and uncorrupted.
#[derive(Clone, Copy, Debug, PartialEq, Eq, Structural)]
pub enum TickError {
    /// The engine's step operation trapped, or the program could not be
    /// compiled or instantiated, or a required export is missing.
    EngineFault,
    /// A memory growth request failed, or the memory stayed smaller than
    /// the required length even after growing.
    MemoryFault,
    /// No frame slot with an ownership count of one was found; every slot
    /// is still held by an outstanding consumer reference.
    PoolExhausted,
    /// A read from the engine memory went beyond the view's bounds.
    ViewFault,
}

} // verus!
