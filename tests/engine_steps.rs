use nanograin::{Cursor, GrainEngine, SLOT_COUNT};

type Frame = (f32, f32, f32);

const ZERO: Frame = (0.0, 0.0, 0.0);

fn active_engine(sample_rate: u64, seed: u64) -> GrainEngine<Frame> {
    let mut e = GrainEngine::new(sample_rate, seed);
    e.activate(ZERO);
    e
}

#[test]
fn new_engine_is_inactive_with_cursors_at_the_start() {
    let e: GrainEngine<Frame> = GrainEngine::new(48000, 1);
    assert!(!e.is_active());
    assert_eq!(e.sample_rate(), 48000);
    assert_eq!(e.capacity(), 24001);
    assert_eq!(e.read_cursor(), Cursor { slot: 0, pos: 0 });
    assert_eq!(e.write_cursor(), Cursor { slot: 0, pos: 0 });
}

#[test]
fn activation_clears_the_pool_and_draws_slots() {
    let mut e = active_engine(200, 9);
    assert!(e.is_active());
    assert_eq!(e.capacity(), 101);
    assert_eq!(e.grain_len(), 101);
    assert_eq!(e.read_cursor().pos, 0);
    assert_eq!(e.write_cursor().pos, 0);
    assert!(e.read_cursor().slot < SLOT_COUNT);
    assert!(e.write_cursor().slot < SLOT_COUNT);
    e.begin_step(10);
    e.finish_step((1.0, 2.0, 0.5), (3.0, 4.0, 0.5), 5);
    e.activate(ZERO);
    for slot in 0..SLOT_COUNT {
        for pos in 0..e.capacity() {
            assert_eq!(e.frame_at(slot, pos), ZERO);
        }
    }
}

#[test]
fn step_stores_decayed_then_incoming_frames() {
    let mut e = active_engine(200, 3);
    let tap = e.begin_step(10);
    assert_eq!(tap.frame, ZERO);
    assert_eq!(tap.pos, 0);
    assert_eq!(tap.len, 10);
    let r = e.read_cursor();
    let w = e.write_cursor();
    e.finish_step((1.0, 2.0, 0.25), (5.0, 6.0, 0.5), 50);
    if r == w {
        assert_eq!(e.frame_at(w.slot, w.pos), (5.0, 6.0, 0.5));
    } else {
        assert_eq!(e.frame_at(r.slot, r.pos), (1.0, 2.0, 0.25));
        assert_eq!(e.frame_at(w.slot, w.pos), (5.0, 6.0, 0.5));
    }
    assert_eq!(e.read_cursor(), Cursor { slot: r.slot, pos: 1 });
    assert_eq!(e.write_cursor(), Cursor { slot: w.slot, pos: 1 });
}

#[test]
fn recorded_frame_is_read_back_one_grain_later() {
    let mut e = active_engine(200, 5);
    // One slot only, so both cursors share slot 0 after their first wrap.
    for _ in 0..4 {
        e.begin_step(4);
        e.finish_step(ZERO, ZERO, 1);
    }
    assert_eq!(e.read_cursor(), Cursor { slot: 0, pos: 0 });
    assert_eq!(e.write_cursor(), Cursor { slot: 0, pos: 0 });
    for k in 0..4 {
        let tap = e.begin_step(4);
        let stored = tap.frame;
        e.finish_step(stored, (k as f32, -(k as f32), 0.75), 1);
    }
    for k in 0..4 {
        let tap = e.begin_step(4);
        assert_eq!(tap.pos, k);
        assert_eq!(tap.frame, (k as f32, -(k as f32), 0.75));
        e.finish_step(tap.frame, ZERO, 1);
    }
}

#[test]
fn shorter_grain_pulls_cursors_back() {
    let mut e = active_engine(200, 11);
    for _ in 0..50 {
        e.begin_step(100);
        e.finish_step(ZERO, ZERO, 50);
    }
    assert_eq!(e.read_cursor().pos, 50);
    let slot = e.read_cursor().slot;
    let tap = e.begin_step(10);
    assert_eq!(tap.pos, 9);
    assert_eq!(tap.len, 10);
    assert_eq!(e.read_cursor(), Cursor { slot, pos: 9 });
    assert_eq!(e.write_cursor().pos, 9);
    e.finish_step(ZERO, ZERO, 1);
    assert_eq!(e.read_cursor(), Cursor { slot: 0, pos: 0 });
    assert_eq!(e.write_cursor(), Cursor { slot: 0, pos: 0 });
}

#[test]
fn grain_length_above_capacity_is_capped() {
    let mut e = active_engine(200, 2);
    let tap = e.begin_step(1_000_000);
    assert_eq!(tap.len, 101);
    let tap = e.begin_step(0);
    assert_eq!(tap.len, 1);
}

#[test]
fn one_wrap_per_cursor_in_a_grain_and_one_sample() {
    let mut e = active_engine(48000, 42);
    let frames = (0.5f32 * 48000.0f32) as usize;
    let silence: Frame = (0.0, 0.0, 0.5);
    let mut read_wraps = 0;
    let mut write_wraps = 0;
    for _ in 0..24001 {
        let tap = e.begin_step(frames);
        assert_eq!(tap.len, 24000);
        e.finish_step(tap.frame, silence, 1);
        if e.read_cursor().pos == 0 {
            read_wraps += 1;
        }
        if e.write_cursor().pos == 0 {
            write_wraps += 1;
        }
    }
    assert_eq!(read_wraps, 1);
    assert_eq!(write_wraps, 1);
    assert_eq!(e.read_cursor(), Cursor { slot: 0, pos: 1 });
    assert_eq!(e.write_cursor(), Cursor { slot: 0, pos: 1 });
}

#[test]
fn single_grain_count_always_returns_to_slot_zero() {
    let mut e = active_engine(200, 77);
    for _ in 0..200 {
        let before = e.read_cursor();
        e.begin_step(7);
        e.finish_step(ZERO, ZERO, 1);
        if before.pos == 6 {
            assert_eq!(e.read_cursor(), Cursor { slot: 0, pos: 0 });
            assert_eq!(e.write_cursor(), Cursor { slot: 0, pos: 0 });
        }
    }
}

#[test]
fn wrapped_slots_lie_below_grain_count() {
    let mut e = active_engine(200, 123);
    let mut seen = [false; 5];
    for _ in 0..2000 {
        e.begin_step(1);
        e.finish_step(ZERO, ZERO, 5);
        let r = e.read_cursor();
        let w = e.write_cursor();
        assert!(r.slot < 5 && w.slot < 5);
        assert_eq!(r.pos, 0);
        seen[r.slot] = true;
    }
    assert!(seen.iter().filter(|s| **s).count() > 1);
}

#[test]
fn cursors_stay_within_grain_length() {
    let mut e = active_engine(400, 8);
    let lengths = [50usize, 13, 200, 1, 77, 0, 500];
    for (n, len) in lengths.iter().enumerate() {
        for _ in 0..300 {
            let tap = e.begin_step(*len);
            assert!(tap.pos < tap.len);
            assert!(e.write_cursor().pos < tap.len);
            e.finish_step(tap.frame, ZERO, n + 1);
            assert!(e.read_cursor().pos < tap.len);
            assert!(e.write_cursor().pos < tap.len);
        }
    }
}

#[test]
fn same_seed_and_inputs_give_same_states() {
    let mut a = active_engine(300, 2024);
    let mut b = active_engine(300, 2024);
    for k in 0..1000 {
        let input: Frame = (k as f32, 0.5 * k as f32, 0.3);
        let ta = a.begin_step(37);
        let tb = b.begin_step(37);
        assert_eq!(ta.frame, tb.frame);
        assert_eq!(ta.pos, tb.pos);
        a.finish_step((ta.frame.0, ta.frame.1, ta.frame.2 * 0.3), input, 9);
        b.finish_step((tb.frame.0, tb.frame.1, tb.frame.2 * 0.3), input, 9);
        assert_eq!(a.read_cursor(), b.read_cursor());
        assert_eq!(a.write_cursor(), b.write_cursor());
    }
}

#[test]
fn steps_without_wrap_keep_their_slots() {
    let mut a = active_engine(300, 1);
    a.begin_step(40);
    let r = a.read_cursor();
    let w = a.write_cursor();
    for k in 0..20 {
        let tap = a.begin_step(40);
        a.finish_step(tap.frame, (k as f32, 0.0, 0.1), 3);
    }
    assert_eq!(a.read_cursor(), Cursor { slot: r.slot, pos: 20 });
    assert_eq!(a.write_cursor(), Cursor { slot: w.slot, pos: 20 });
}

#[test]
fn zero_feedback_leaves_only_zero_stamps() {
    let feedback = 0.0f32;
    let mut e = active_engine(200, 31);
    for k in 0..60 {
        let tap = e.begin_step(20);
        if k >= 20 {
            assert_eq!(tap.frame.2, 0.0);
        }
        let (l, r, fb) = tap.frame;
        e.finish_step((l, r, fb * feedback), (0.25, -0.25, feedback), 1);
    }
}
