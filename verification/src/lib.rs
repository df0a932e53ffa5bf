//! A frame-buffer recycling pool for a periodic pixel producer.
//!
//! A sandboxed execution engine writes RGBA pixel data into its own linear
//! memory once per tick.  The pool hands completed snapshots of that memory
//! to a renderer without per-frame reallocation and without the renderer
//! ever observing a partially written buffer.  Free slots are discovered
//! purely through a per-frame ownership count: a slot is reusable exactly
//! when no holder outside the pool still references it.

pub mod driver;
pub mod engine;
pub mod errors;
pub mod frame;
pub mod pool;
