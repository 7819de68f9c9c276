//! A stereo granular-delay engine: a pool of fixed-capacity grain slots,
//! one cursor that records into a slot and one that plays a slot back,
//! each jumping to a freshly drawn slot whenever it wraps at the end of a grain.
//!
//! The library owns the pool, the cursors and every decision about where to
//! read and write; the caller supplies the frames and does the sample math.

pub mod cursor;
pub mod engine;
pub mod laws;
mod random;

pub use cursor::{
    advance, effective_grain_count, reconcile, runtime_grain_length, Cursor, MAX_GRAIN_COUNT,
};
pub use engine::{slot_capacity, supports_sample_rate, GrainEngine, Tap, SLOT_COUNT};
