use vstd::arithmetic::div_mod::{lemma_fundamental_div_mod, lemma_mod_multiples_vanish};
use vstd::prelude::*;

verus! {

/// Micro-degrees in a full turn. Angles are counted in micro-degrees and
/// timestamps in microseconds, so that a frame's rotation is exact.
pub const FULL_TURN: i64 = 360_000_000;

/// Micro-degrees in half a turn.
pub const HALF_TURN: i64 = 180_000_000;

/// Speed of the spin: 60 degrees per second, which is 60 micro-degrees per
/// microsecond. The spin is clockwise, so the angle decreases.
pub const SPIN_RATE: i64 = 60;

/// Microseconds after which the spin has made one full turn.
pub const SPIN_PERIOD: u64 = 6_000_000;

/// The angle equal to `a` modulo a full turn that lies in
/// (-half turn, half turn].
pub open spec fn wrap_turn(a: int) -> int {
    let m = a % (FULL_TURN as int);
    if m > HALF_TURN {
        m - FULL_TURN
    } else {
        m
    }
}

/// Rotation of the spin over `elapsed` microseconds, unwrapped.
pub open spec fn spin_angle(elapsed: int) -> int {
    -(SPIN_RATE * elapsed)
}

/// The rotation applied by a frame at `now` that follows one at `previous`.
pub open spec fn spin_increment(previous: u64, now: u64) -> int {
    wrap_turn(spin_angle(now - previous))
}

/// Where the frame loop stands.
#[derive(Clone, Copy, Debug, PartialEq, Eq, Structural)]
pub enum Phase {
    /// Not yet registered with the host.
    Unstarted,
    /// Registered; waiting for the host to invoke the next frame.
    Scheduled,
    /// A frame is being drawn.
    Running,
    /// A frame failed to draw; the loop was not rescheduled.
    Halted,
}

/// The state of the animation: its phase, the timestamp of the previous
/// frame (microseconds) and the accumulated rotation about z
/// (micro-degrees, in (-half turn, half turn]).
#[derive(Clone, Copy, Debug, PartialEq, Eq, Structural)]
pub struct FrameLoop {
    pub phase: Phase,
    pub previous: u64,
    pub accumulated: i64,
}

/// What a frame must draw: the rotation this frame adds, and the
/// accumulated rotation of the model, both in micro-degrees. The world
/// transform is the projection times the rotation by `accumulated`.
#[derive(Clone, Copy, Debug, PartialEq, Eq, Structural)]
pub struct FrameUpdate {
    pub rotation: i64,
    pub accumulated: i64,
}

impl FrameLoop {
    /// The accumulated rotation is a wrapped angle.
    pub open spec fn wf(&self) -> bool {
        wrap_turn(self.accumulated as int) == self.accumulated
    }

    /// The state after a frame at `now`, drawn and rescheduled.
    pub open spec fn after_frame(self, now: u64) -> FrameLoop {
        FrameLoop {
            phase: Phase::Scheduled,
            previous: now,
            accumulated: wrap_turn(self.accumulated + spin_increment(self.previous, now)) as i64,
        }
    }

    /// A loop that has not been registered: identity rotation.
    pub fn new() -> (r: FrameLoop)
        ensures
            r.phase == Phase::Unstarted,
            r.previous == 0,
            r.accumulated == 0,
            r.wf(),
    {
        FrameLoop { phase: Phase::Unstarted, previous: 0, accumulated: 0 }
    }

    /// Registers the loop at time `now`, with the identity rotation. Returns
    /// whether the host must be asked for a frame; a loop that was started
    /// already is left as it is.
    pub fn start(&mut self, now: u64) -> (request: bool)
        ensures
            request == (old(self).phase == Phase::Unstarted),
            request ==> *final(self) == (FrameLoop {
                phase: Phase::Scheduled,
                previous: now,
                accumulated: 0,
            }),
            !request ==> *final(self) == *old(self),
            request || old(self).wf() ==> final(self).wf(),
    {
        if self.phase == Phase::Unstarted {
            self.phase = Phase::Scheduled;
            self.previous = now;
            self.accumulated = 0;
            true
        } else {
            false
        }
    }

    /// The host invokes a frame at `now`. A scheduled loop starts running
    /// and returns what to draw; in any other phase nothing happens.
    pub fn begin_frame(&mut self, now: u64) -> (r: Option<FrameUpdate>)
        requires
            old(self).wf(),
        ensures
            final(self).wf(),
            old(self).phase == Phase::Scheduled ==> {
                &&& r == Some(
                    FrameUpdate {
                        rotation: spin_increment(old(self).previous, now) as i64,
                        accumulated: old(self).after_frame(now).accumulated,
                    },
                )
                &&& *final(self) == (FrameLoop { phase: Phase::Running, ..old(self).after_frame(now) })
            },
            old(self).phase != Phase::Scheduled ==> r is None && *final(self) == *old(self),
    {
        if self.phase != Phase::Scheduled {
            return None;
        }
        let rotation = spin_between(self.previous, now);
        let accumulated = wrap_small(self.accumulated + rotation);
        proof {
            lemma_wrap_idempotent(accumulated as int);
        }
        self.phase = Phase::Running;
        self.previous = now;
        self.accumulated = accumulated;
        Some(FrameUpdate { rotation, accumulated })
    }

    /// The running frame has ended: drawn, it reschedules the loop and
    /// returns true; failed, it halts the loop. In any other phase nothing
    /// happens.
    pub fn end_frame(&mut self, drawn: bool) -> (reschedule: bool)
        ensures
            reschedule == (old(self).phase == Phase::Running && drawn),
            old(self).phase == Phase::Running ==> *final(self) == (FrameLoop {
                phase: if drawn {
                    Phase::Scheduled
                } else {
                    Phase::Halted
                },
                ..*old(self)
            }),
            old(self).phase != Phase::Running ==> *final(self) == *old(self),
    {
        if self.phase != Phase::Running {
            return false;
        }
        if drawn {
            self.phase = Phase::Scheduled;
        } else {
            self.phase = Phase::Halted;
        }
        drawn
    }
}

/// The loop started at `start`, after a frame was drawn at each of `times`.
pub open spec fn loop_after(start: u64, times: Seq<u64>) -> FrameLoop
    decreases times.len(),
{
    if times.len() == 0 {
        FrameLoop { phase: Phase::Scheduled, previous: start, accumulated: 0 }
    } else {
        loop_after(start, times.drop_last()).after_frame(times.last())
    }
}

/// Runs the loop from `start` through a frame at each of `times`, and
/// returns the accumulated rotation after each frame.
pub fn spin_history(start: u64, times: &Vec<u64>) -> (r: Vec<i64>)
    ensures
        r@.len() == times@.len(),
        forall|i: int|
            0 <= i < times@.len() ==> r@[i] == loop_after(start, times@.take(i + 1)).accumulated,
        forall|i: int|
            0 <= i < times@.len() ==> r@[i] == wrap_turn(spin_angle(times@[i] - start)),
{
    let mut frames = FrameLoop::new();
    frames.start(start);
    let mut r: Vec<i64> = Vec::new();
    let mut i: usize = 0;
    proof {
        assert(times@.take(0) =~= Seq::<u64>::empty());
    }
    while i < times.len()
        invariant
            0 <= i <= times@.len(),
            r@.len() == i,
            frames.wf(),
            frames == loop_after(start, times@.take(i as int)),
            forall|j: int|
                0 <= j < i ==> r@[j] == loop_after(start, times@.take(j + 1)).accumulated,
        decreases times@.len() - i,
    {
        let now = times[i];
        let update = frames.begin_frame(now);
        frames.end_frame(true);
        proof {
            assert(times@.take(i + 1).drop_last() =~= times@.take(i as int));
        }
        match update {
            Some(u) => r.push(u.accumulated),
            None => {},
        }
        i = i + 1;
    }
    proof {
        assert forall|i: int| 0 <= i < times@.len() implies r@[i] == wrap_turn(
            spin_angle(times@[i] - start),
        ) by {
            lemma_spin_telescopes(start, times@.take(i + 1));
        }
    }
    r
}

/// The rotation of the model depends only on the time since the loop
/// started: after frames at any timestamps, the accumulated rotation is the
/// spin over the time from the start to the last frame.
pub proof fn lemma_spin_telescopes(start: u64, times: Seq<u64>)
    requires
        times.len() > 0,
    ensures
        loop_after(start, times).accumulated == wrap_turn(spin_angle(times.last() - start)),
        loop_after(start, times).previous == times.last(),
        loop_after(start, times).phase == Phase::Scheduled,
    decreases times.len(),
{
    let before = loop_after(start, times.drop_last());
    let now = times.last();
    if times.len() == 1 {
        assert(before.accumulated == 0);
        assert(wrap_turn(0) == 0) by {
            lemma_wrap_in_range(0);
        }
        lemma_wrap_idempotent(spin_angle(now - start));
        lemma_wrap_congruent(spin_angle(now - start));
    } else {
        lemma_spin_telescopes(start, times.drop_last());
        let past = spin_angle(before.previous - start);
        let step = spin_angle(now - before.previous);
        lemma_wrap_add(past, step);
        assert(past + step == spin_angle(now - start));
        lemma_wrap_congruent(spin_angle(now - start));
    }
}

/// Two runs that start at the same time and draw their last frame at the
/// same time reach the same rotation, whatever the frames in between.
pub proof fn lemma_spin_independent_of_frame_times(start: u64, a: Seq<u64>, b: Seq<u64>)
    requires
        a.len() > 0,
        b.len() > 0,
        a.last() == b.last(),
    ensures
        loop_after(start, a).accumulated == loop_after(start, b).accumulated,
{
    lemma_spin_telescopes(start, a);
    lemma_spin_telescopes(start, b);
}

/// Wraps an angle that lies within a turn and a half of zero.
fn wrap_small(x: i64) -> (r: i64)
    requires
        -(FULL_TURN + HALF_TURN) < x <= FULL_TURN + HALF_TURN,
    ensures
        r == wrap_turn(x as int),
{
    if x > HALF_TURN {
        proof {
            lemma_wrap_shift(x - FULL_TURN, 1);
            lemma_wrap_in_range(x - FULL_TURN);
        }
        x - FULL_TURN
    } else if x <= -HALF_TURN {
        proof {
            lemma_wrap_shift(x + FULL_TURN, -1);
            lemma_wrap_in_range(x + FULL_TURN);
        }
        x + FULL_TURN
    } else {
        proof {
            lemma_wrap_in_range(x as int);
        }
        x
    }
}

/// The rotation of a frame at `now` after one at `previous`.
fn spin_between(previous: u64, now: u64) -> (r: i64)
    ensures
        r == spin_increment(previous, now),
        -HALF_TURN < r <= HALF_TURN,
{
    if now >= previous {
        let d = (now - previous) % SPIN_PERIOD;
        proof {
            lemma_spin_period((now - previous) as int);
        }
        wrap_small(-(SPIN_RATE * (d as i64)))
    } else {
        let d = (previous - now) % SPIN_PERIOD;
        proof {
            lemma_spin_period((previous - now) as int);
            assert(spin_angle(now - previous) == -spin_angle(previous - now));
        }
        wrap_small(SPIN_RATE * (d as i64))
    }
}

/// Adding whole turns does not change a wrapped angle.
pub proof fn lemma_wrap_shift(a: int, k: int)
    ensures
        wrap_turn(a + FULL_TURN * k) == wrap_turn(a),
{
    lemma_mod_multiples_vanish(k, a, FULL_TURN as int);
    assert(FULL_TURN * k + a == a + FULL_TURN * k);
}

/// An angle within (-half turn, half turn] is its own wrap.
proof fn lemma_wrap_in_range(a: int)
    requires
        -HALF_TURN < a <= HALF_TURN,
    ensures
        wrap_turn(a) == a,
{
    if a >= 0 {
        lemma_fundamental_div_mod(a, FULL_TURN as int);
        assert(a % (FULL_TURN as int) == a);
    } else {
        lemma_wrap_shift(a, 1);
        lemma_fundamental_div_mod(a + FULL_TURN, FULL_TURN as int);
        assert((a + FULL_TURN) % (FULL_TURN as int) == a + FULL_TURN);
    }
}

/// The whole turns that wrapping adds to `a`.
spec fn wrap_turns(a: int) -> int {
    let q = a / (FULL_TURN as int);
    if a % (FULL_TURN as int) > HALF_TURN {
        -q - 1
    } else {
        -q
    }
}

/// A wrapped angle differs from the angle by whole turns, and lies in
/// (-half turn, half turn].
proof fn lemma_wrap_congruent(a: int)
    ensures
        -HALF_TURN < wrap_turn(a) <= HALF_TURN,
        wrap_turn(a) == a + FULL_TURN * wrap_turns(a),
{
    lemma_fundamental_div_mod(a, FULL_TURN as int);
    let q = a / (FULL_TURN as int);
    if a % (FULL_TURN as int) > HALF_TURN {
        assert(wrap_turn(a) == a + FULL_TURN * (-q - 1));
    } else {
        assert(wrap_turn(a) == a + FULL_TURN * (-q));
    }
}

/// Wrapping twice is wrapping once.
proof fn lemma_wrap_idempotent(a: int)
    ensures
        wrap_turn(wrap_turn(a)) == wrap_turn(a),
{
    lemma_wrap_congruent(a);
    lemma_wrap_in_range(wrap_turn(a));
}

/// The wrap of a sum of wrapped angles is the wrap of their sum.
pub proof fn lemma_wrap_add(a: int, b: int)
    ensures
        wrap_turn(wrap_turn(a) + wrap_turn(b)) == wrap_turn(a + b),
{
    lemma_wrap_congruent(a);
    lemma_wrap_congruent(b);
    let ka = wrap_turns(a);
    let kb = wrap_turns(b);
    assert(wrap_turn(a) + wrap_turn(b) == (a + b) + FULL_TURN * (ka + kb)) by (nonlinear_arith)
        requires
            wrap_turn(a) == a + FULL_TURN * ka,
            wrap_turn(b) == b + FULL_TURN * kb,
    ;
    lemma_wrap_shift(a + b, ka + kb);
}

/// The spin repeats after each period.
proof fn lemma_spin_period(e: int)
    requires
        e >= 0,
    ensures
        wrap_turn(spin_angle(e)) == wrap_turn(spin_angle(e % (SPIN_PERIOD as int))),
{
    lemma_fundamental_div_mod(e, SPIN_PERIOD as int);
    let q = e / (SPIN_PERIOD as int);
    let r = e % (SPIN_PERIOD as int);
    assert(spin_angle(e) == spin_angle(r) + FULL_TURN * (-q)) by (nonlinear_arith)
        requires
            e == SPIN_PERIOD * q + r,
    ;
    lemma_wrap_shift(spin_angle(r), -q);
}

} // verus!
