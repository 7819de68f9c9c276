use crate::cursor::{grain_count_spec, wraps};
use crate::engine::{lemma_index_in_pool, EngineState};
use vstd::prelude::*;

verus! {

/// A step that wraps neither cursor is a function of the state and its
/// inputs alone: two steps from one state, with the same grain length, frames
/// and grain count, reach the same state whatever the generator draws.
pub proof fn lemma_step_deterministic<F>(
    s: EngineState<F>,
    grain_frames: nat,
    decayed: F,
    incoming: F,
    grain_count: nat,
    post1: EngineState<F>,
    post2: EngineState<F>,
)
    requires
        s.wf(),
        s.active(),
        !wraps(s.begun(grain_frames).read, s.begun(grain_frames).grain_len),
        !wraps(s.begun(grain_frames).write, s.begun(grain_frames).grain_len),
        s.begun(grain_frames).finished(post1, decayed, incoming, grain_count),
        s.begun(grain_frames).finished(post2, decayed, incoming, grain_count),
    ensures
        post1 == post2,
{
}

/// Both cursors stay within the runtime grain length before and after every
/// step, and a cursor that wraps lands in a slot below the effective grain count.
pub proof fn lemma_cursor_wrap_invariant<F>(
    s: EngineState<F>,
    grain_frames: nat,
    decayed: F,
    incoming: F,
    grain_count: nat,
    post: EngineState<F>,
)
    requires
        s.wf(),
        s.active(),
        s.begun(grain_frames).finished(post, decayed, incoming, grain_count),
    ensures
        s.begun(grain_frames).wf(),
        s.begun(grain_frames).read.pos < s.begun(grain_frames).grain_len,
        s.begun(grain_frames).write.pos < s.begun(grain_frames).grain_len,
        post.wf(),
        post.read.pos < post.grain_len,
        post.write.pos < post.grain_len,
        wraps(s.begun(grain_frames).read, s.begun(grain_frames).grain_len) ==> post.read.slot
            < grain_count_spec(grain_count),
        wraps(s.begun(grain_frames).write, s.begun(grain_frames).grain_len) ==> post.write.slot
            < grain_count_spec(grain_count),
{
    let b = s.begun(grain_frames);
    lemma_index_in_pool(b.read.slot as nat, b.read.pos as nat, b.capacity);
    lemma_index_in_pool(b.write.slot as nat, b.write.pos as nat, b.capacity);
}

} // verus!
