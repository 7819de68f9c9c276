use vstd::prelude::*;

verus! {

/// Largest number of slots that a grain cursor may be drawn from at a wrap.
pub const MAX_GRAIN_COUNT: usize = 50;

/// A position inside the grain pool: which slot, and which frame of it.
#[derive(Clone, Copy, Debug, PartialEq, Eq, Structural)]
pub struct Cursor {
    pub slot: usize,
    pub pos: usize,
}

/// The runtime grain length: the requested length in frames, kept within `[1, capacity]`.
pub open spec fn grain_length_spec(grain_frames: nat, capacity: nat) -> nat {
    if grain_frames < 1 {
        1
    } else if grain_frames > capacity {
        capacity
    } else {
        grain_frames
    }
}

/// The number of slots drawn from at a wrap, kept within `[1, MAX_GRAIN_COUNT]`.
pub open spec fn grain_count_spec(grain_count: nat) -> nat {
    if grain_count < 1 {
        1
    } else if grain_count > MAX_GRAIN_COUNT {
        MAX_GRAIN_COUNT as nat
    } else {
        grain_count
    }
}

/// A cursor that lies beyond the grain length is pulled back onto its last frame.
pub open spec fn reconcile_spec(c: Cursor, len: nat) -> Cursor {
    if c.pos < len {
        c
    } else {
        Cursor { slot: c.slot, pos: (len - 1) as usize }
    }
}

/// Whether moving one frame on from `c` runs past the end of a grain of `len` frames.
pub open spec fn wraps(c: Cursor, len: nat) -> bool {
    c.pos + 1 >= len
}

/// One frame on: the next position in the same slot, or the start of slot `drawn` at a wrap.
pub open spec fn advance_spec(c: Cursor, len: nat, drawn: usize) -> Cursor {
    if wraps(c, len) {
        Cursor { slot: drawn, pos: 0 }
    } else {
        Cursor { slot: c.slot, pos: (c.pos + 1) as usize }
    }
}

/// `next` is a legal successor of `prev` in a grain of `len` frames when slots
/// are drawn from `[0, count)`: the same slot one frame on, or, at a wrap, the
/// first frame of a slot below `count`.
pub open spec fn follows(prev: Cursor, next: Cursor, len: nat, count: nat) -> bool {
    if wraps(prev, len) {
        next.pos == 0 && next.slot < count
    } else {
        next == advance_spec(prev, len, prev.slot)
    }
}

/// Clamps a requested grain length, in frames, to at least one frame and at
/// most the slot capacity.
pub fn runtime_grain_length(grain_frames: usize, capacity: usize) -> (r: usize)
    requires
        capacity >= 1,
    ensures
        r == grain_length_spec(grain_frames as nat, capacity as nat),
        1 <= r <= capacity,
{
    if grain_frames < 1 {
        1
    } else if grain_frames > capacity {
        capacity
    } else {
        grain_frames
    }
}

/// Clamps the grain count control to `[1, MAX_GRAIN_COUNT]`.
pub fn effective_grain_count(grain_count: usize) -> (r: usize)
    ensures
        r == grain_count_spec(grain_count as nat),
        1 <= r <= MAX_GRAIN_COUNT,
{
    if grain_count < 1 {
        1
    } else if grain_count > MAX_GRAIN_COUNT {
        MAX_GRAIN_COUNT
    } else {
        grain_count
    }
}

/// Brings a cursor back within a grain of `len` frames, keeping its slot.
pub fn reconcile(c: Cursor, len: usize) -> (r: Cursor)
    requires
        len >= 1,
    ensures
        r == reconcile_spec(c, len as nat),
        r.pos < len,
        r.slot == c.slot,
{
    if c.pos < len {
        c
    } else {
        Cursor { slot: c.slot, pos: len - 1 }
    }
}

/// Moves a cursor one frame on; at a wrap it starts over at frame 0 of slot `drawn`.
pub fn advance(c: Cursor, len: usize, drawn: usize) -> (r: Cursor)
    requires
        c.pos < len,
    ensures
        r == advance_spec(c, len as nat, drawn),
        r.pos < len,
{
    if c.pos + 1 >= len {
        Cursor { slot: drawn, pos: 0 }
    } else {
        Cursor { slot: c.slot, pos: c.pos + 1 }
    }
}

} // verus!
