use crate::cursor::{
    advance, effective_grain_count, follows, grain_count_spec, grain_length_spec, reconcile,
    reconcile_spec, runtime_grain_length, Cursor, MAX_GRAIN_COUNT,
};
use crate::random::{draw_below, seeded_rng};
use rand::rngs::StdRng;
use vstd::prelude::*;

verus! {

/// Number of slots in the grain pool: one more than the largest grain count.
pub const SLOT_COUNT: usize = MAX_GRAIN_COUNT + 1;

/// Frames in one slot for a sample rate: half a second of audio, plus one.
pub open spec fn slot_capacity_spec(sample_rate: nat) -> nat {
    sample_rate / 2 + 1
}

/// Whether a pool of `SLOT_COUNT` slots for this sample rate can be addressed.
pub open spec fn sample_rate_fits(sample_rate: nat) -> bool {
    SLOT_COUNT * slot_capacity_spec(sample_rate) <= usize::MAX
}

/// The mathematical state of a grain engine.
pub struct EngineState<F> {
    pub sample_rate: nat,
    /// Frames per slot.
    pub capacity: nat,
    /// All slots laid end to end: slot `s` holds `pool[s * capacity .. (s + 1) * capacity]`.
    pub pool: Seq<F>,
    /// The runtime grain length of the current step, in frames.
    pub grain_len: nat,
    pub read: Cursor,
    pub write: Cursor,
}

impl<F> EngineState<F> {
    /// Whether the pool has been allocated.
    pub open spec fn active(self) -> bool {
        self.pool.len() > 0
    }

    pub open spec fn wf(self) -> bool {
        &&& self.capacity == slot_capacity_spec(self.sample_rate)
        &&& sample_rate_fits(self.sample_rate)
        &&& (self.pool.len() == 0 || self.pool.len() == SLOT_COUNT * self.capacity)
        &&& 1 <= self.grain_len <= self.capacity
        &&& self.read.slot < SLOT_COUNT
        &&& self.write.slot < SLOT_COUNT
        &&& self.read.pos < self.grain_len
        &&& self.write.pos < self.grain_len
    }

    /// Where the frame under a cursor lies in the pool.
    pub open spec fn index_of(self, c: Cursor) -> int {
        c.slot * self.capacity + c.pos
    }

    /// The frame at `pos` of slot `slot`.
    pub open spec fn frame(self, slot: int, pos: int) -> F {
        self.pool[slot * self.capacity + pos]
    }

    /// The state once a step has fixed its grain length and brought both
    /// cursors within it.
    pub open spec fn begun(self, grain_frames: nat) -> EngineState<F> {
        let len = grain_length_spec(grain_frames, self.capacity);
        EngineState {
            grain_len: len,
            read: reconcile_spec(self.read, len),
            write: reconcile_spec(self.write, len),
            ..self
        }
    }

    /// `post` is a state that finishing a step can lead to from `self`: the
    /// decayed frame replaces the one under the read cursor, the incoming
    /// frame then goes under the write cursor, and both cursors move on,
    /// drawing a slot below the effective grain count where they wrap.
    pub open spec fn finished(
        self,
        post: EngineState<F>,
        decayed: F,
        incoming: F,
        grain_count: nat,
    ) -> bool {
        let count = grain_count_spec(grain_count);
        &&& post.sample_rate == self.sample_rate
        &&& post.capacity == self.capacity
        &&& post.grain_len == self.grain_len
        &&& post.pool == self.pool.update(self.index_of(self.read), decayed).update(
            self.index_of(self.write),
            incoming,
        )
        &&& follows(self.write, post.write, self.grain_len, count)
        &&& follows(self.read, post.read, self.grain_len, count)
    }
}

/// What a step reads: the frame under the read cursor, where the cursor
/// stands in its grain, and the grain length, from which the caller shapes
/// the fade envelope.
pub struct Tap<F> {
    pub frame: F,
    pub pos: usize,
    pub len: usize,
}

/// A granular delay over frames of type `F`.
pub struct GrainEngine<F> {
    sample_rate: u64,
    capacity: usize,
    pool: Vec<F>,
    grain_len: usize,
    read: Cursor,
    write: Cursor,
    rng: StdRng,
}

pub(crate) proof fn lemma_index_in_pool(slot: nat, pos: nat, capacity: nat)
    requires
        slot < SLOT_COUNT,
        pos < capacity,
    ensures
        slot * capacity + pos < SLOT_COUNT * capacity,
{
    assert(slot * capacity + pos < SLOT_COUNT * capacity) by (nonlinear_arith)
        requires
            slot < SLOT_COUNT,
            pos < capacity,
    ;
}

/// Frames in one slot: `floor(sample_rate * 0.5) + 1`.
pub fn slot_capacity(sample_rate: u64) -> (r: usize)
    requires
        sample_rate_fits(sample_rate as nat),
    ensures
        r == slot_capacity_spec(sample_rate as nat),
{
    (sample_rate / 2 + 1) as usize
}

/// Whether a pool for this sample rate can be addressed.
pub fn supports_sample_rate(sample_rate: u64) -> (r: bool)
    ensures
        r == sample_rate_fits(sample_rate as nat),
{
    let cap: u64 = sample_rate / 2 + 1;
    let limit: u64 = (usize::MAX / SLOT_COUNT) as u64;
    assert(sample_rate_fits(sample_rate as nat) <==> cap <= usize::MAX / SLOT_COUNT) by (
    nonlinear_arith)
        requires
            cap == slot_capacity_spec(sample_rate as nat),
    ;
    cap <= limit
}

impl<F> View for GrainEngine<F> {
    type V = EngineState<F>;

    closed spec fn view(&self) -> EngineState<F> {
        EngineState {
            sample_rate: self.sample_rate as nat,
            capacity: self.capacity as nat,
            pool: self.pool@,
            grain_len: self.grain_len as nat,
            read: self.read,
            write: self.write,
        }
    }
}

impl<F: Copy> GrainEngine<F> {
    /// An engine for a sample rate, with an empty pool and its generator
    /// seeded from `seed`. `activate` allocates the pool.
    pub fn new(sample_rate: u64, seed: u64) -> (r: Self)
        requires
            sample_rate_fits(sample_rate as nat),
        ensures
            r@.wf(),
            !r@.active(),
            r@.sample_rate == sample_rate,
            r@.grain_len == 1,
            r@.read == (Cursor { slot: 0, pos: 0 }),
            r@.write == (Cursor { slot: 0, pos: 0 }),
    {
        GrainEngine {
            sample_rate,
            capacity: slot_capacity(sample_rate),
            pool: Vec::new(),
            grain_len: 1,
            read: Cursor { slot: 0, pos: 0 },
            write: Cursor { slot: 0, pos: 0 },
            rng: seeded_rng(seed),
        }
    }

    /// Discards the pool and allocates a fresh one of `SLOT_COUNT` slots,
    /// every frame `zero`; both cursors go to frame 0 of slots drawn from
    /// `[0, SLOT_COUNT)`.
    pub fn activate(&mut self, zero: F)
        requires
            old(self)@.wf(),
        ensures
            final(self)@.wf(),
            final(self)@.active(),
            final(self)@.sample_rate == old(self)@.sample_rate,
            final(self)@.capacity == old(self)@.capacity,
            final(self)@.pool == Seq::new((SLOT_COUNT * old(self)@.capacity) as nat, |i: int| zero),
            final(self)@.grain_len == old(self)@.capacity,
            final(self)@.read.pos == 0,
            final(self)@.write.pos == 0,
            final(self)@.read.slot < SLOT_COUNT,
            final(self)@.write.slot < SLOT_COUNT,
    {
        let total: usize = SLOT_COUNT * self.capacity;
        let mut pool: Vec<F> = Vec::with_capacity(total);
        let mut i: usize = 0;
        while i < total
            invariant
                i <= total,
                pool@ == Seq::new(i as nat, |j: int| zero),
            decreases total - i,
        {
            pool.push(zero);
            i = i + 1;
            assert(pool@ =~= Seq::new(i as nat, |j: int| zero));
        }
        self.pool = pool;
        self.grain_len = self.capacity;
        self.read = Cursor { slot: draw_below(&mut self.rng, SLOT_COUNT), pos: 0 };
        self.write = Cursor { slot: draw_below(&mut self.rng, SLOT_COUNT), pos: 0 };
    }

    /// Whether the pool has been allocated.
    pub fn is_active(&self) -> (r: bool)
        requires
            self@.wf(),
        ensures
            r == self@.active(),
    {
        self.pool.len() > 0
    }

    fn index_of(&self, c: Cursor) -> (r: usize)
        requires
            self@.wf(),
            self@.active(),
            c.slot < SLOT_COUNT,
            c.pos < self.capacity,
        ensures
            r == self@.index_of(c),
            r < self@.pool.len(),
    {
        proof {
            lemma_index_in_pool(c.slot as nat, c.pos as nat, self.capacity as nat);
        }
        c.slot * self.capacity + c.pos
    }

    /// Starts a step: fixes the grain length from `grain_frames`, brings both
    /// cursors within it, and returns the frame under the read cursor.
    pub fn begin_step(&mut self, grain_frames: usize) -> (tap: Tap<F>)
        requires
            old(self)@.wf(),
            old(self)@.active(),
        ensures
            final(self)@ == old(self)@.begun(grain_frames as nat),
            final(self)@.wf(),
            tap.frame == final(self)@.pool[final(self)@.index_of(final(self)@.read)],
            tap.pos == final(self)@.read.pos,
            tap.len == final(self)@.grain_len,
    {
        let len = runtime_grain_length(grain_frames, self.capacity);
        self.grain_len = len;
        self.read = reconcile(self.read, len);
        self.write = reconcile(self.write, len);
        let idx = self.index_of(self.read);
        Tap { frame: self.pool[idx], pos: self.read.pos, len }
    }

    /// Finishes a step: stores `decayed` under the read cursor, then `incoming`
    /// under the write cursor, and moves both cursors one frame on. A cursor
    /// that wraps starts over in a slot drawn from `[0, count)`, where `count`
    /// is `grain_count` kept within `[1, MAX_GRAIN_COUNT]`.
    pub fn finish_step(&mut self, decayed: F, incoming: F, grain_count: usize)
        requires
            old(self)@.wf(),
            old(self)@.active(),
        ensures
            old(self)@.finished(final(self)@, decayed, incoming, grain_count as nat),
            final(self)@.wf(),
            final(self)@.active(),
    {
        let count = effective_grain_count(grain_count);
        let ri = self.index_of(self.read);
        self.pool.set(ri, decayed);
        let wi = self.index_of(self.write);
        self.pool.set(wi, incoming);
        let drawn_write = draw_below(&mut self.rng, count);
        self.write = advance(self.write, self.grain_len, drawn_write);
        let drawn_read = draw_below(&mut self.rng, count);
        self.read = advance(self.read, self.grain_len, drawn_read);
    }

    pub fn sample_rate(&self) -> (r: u64)
        ensures
            r == self@.sample_rate,
    {
        self.sample_rate
    }

    /// Frames per slot.
    pub fn capacity(&self) -> (r: usize)
        ensures
            r == self@.capacity,
    {
        self.capacity
    }

    /// The grain length of the latest step.
    pub fn grain_len(&self) -> (r: usize)
        ensures
            r == self@.grain_len,
    {
        self.grain_len
    }

    pub fn read_cursor(&self) -> (r: Cursor)
        ensures
            r == self@.read,
    {
        self.read
    }

    pub fn write_cursor(&self) -> (r: Cursor)
        ensures
            r == self@.write,
    {
        self.write
    }

    /// The frame at `pos` of slot `slot`.
    pub fn frame_at(&self, slot: usize, pos: usize) -> (r: F)
        requires
            self@.wf(),
            self@.active(),
            slot < SLOT_COUNT,
            pos < self@.capacity,
        ensures
            r == self@.frame(slot as int, pos as int),
    {
        let idx = self.index_of(Cursor { slot, pos });
        self.pool[idx]
    }
}

} // verus!
