//! The animated selection indicator.

use vstd::prelude::*;

verus! {

/// The linear animation step from an offset `diff` away from the target
/// with `rem` frames left: `diff / rem`, rounded toward the target, so the
/// step is never zero while any distance remains.  Meaningful for
/// `rem >= 1`.
pub open spec fn ind_step(diff: int, rem: int) -> int {
    if diff >= 0 {
        (diff + rem - 1) / rem
    } else {
        -((-diff + rem - 1) / rem)
    }
}

/// Division rounding up stays between zero and the dividend, is exact on
/// the last frame, and moves whenever any distance remains.
proof fn lemma_ceil_div(d: int, r: int)
    requires
        0 <= d,
        1 <= r,
    ensures
        0 <= (d + r - 1) / r <= d,
        1 <= d ==> 1 <= (d + r - 1) / r,
        r == 1 ==> (d + r - 1) / r == d,
{
    assert(0 <= (d + r - 1) / r) by (nonlinear_arith)
        requires
            0 <= d,
            1 <= r,
    ;
    assert((d + r - 1) / r <= d) by (nonlinear_arith)
        requires
            0 <= d,
            1 <= r,
    ;
    assert(1 <= d ==> 1 <= (d + r - 1) / r) by (nonlinear_arith)
        requires
            0 <= d,
            1 <= r,
    ;
    assert(r == 1 ==> (d + r - 1) / r == d) by (nonlinear_arith)
        requires
            0 <= d,
            1 <= r,
    ;
}

/// An animated selection indicator: the highlight interpolates its current
/// vertical offset toward a target over a configured number of frames,
/// taking one linear step per tick, rounding toward the target, never
/// overshooting and never stalling before it arrives.
pub struct AnimatedSelectionIndicator {
    /// The current, possibly mid-animation, vertical offset.
    pub current: i32,
    /// The destination vertical offset.
    pub target: i32,
    /// How many animation frames are left before `current` must equal
    /// `target`.
    pub remaining: u32,
    /// The configured frame budget an animation starts from.
    pub frames: u32,
}

impl AnimatedSelectionIndicator {
    /// The frame budget is at least one, no more frames remain than the
    /// budget, and a finished animation rests at its target.
    pub open spec fn wf(self) -> bool {
        &&& 1 <= self.frames
        &&& self.remaining <= self.frames
        &&& (self.remaining == 0 ==> self.current == self.target)
    }

    /// This indicator after its destination offset is set to `y`: the
    /// animation restarts with the full frame budget.
    pub open spec fn spec_retarget(self, y: i32) -> Self {
        AnimatedSelectionIndicator { target: y, remaining: self.frames, ..self }
    }

    /// This indicator after one animation tick: while frames remain, the
    /// offset takes one linear step toward the target and one frame is
    /// spent; afterwards nothing moves.
    pub open spec fn spec_tick(self) -> Self {
        if self.remaining > 0 {
            AnimatedSelectionIndicator {
                current: (self.current + ind_step(
                    self.target - self.current,
                    self.remaining as int,
                )) as i32,
                target: self.target,
                remaining: (self.remaining - 1) as u32,
                frames: self.frames,
            }
        } else {
            self
        }
    }

    /// This indicator after `k` animation ticks.
    pub open spec fn iter_ticks(self, k: nat) -> Self
        decreases k,
    {
        if k == 0 {
            self
        } else {
            self.spec_tick().iter_ticks((k - 1) as nat)
        }
    }

    /// A new animated indicator resting at the top, converging in `frames`
    /// frames once given a target.
    pub fn new(frames: u32) -> (r: Self)
        requires
            1 <= frames,
        ensures
            r.wf(),
            r == (AnimatedSelectionIndicator { current: 0, target: 0, remaining: 0, frames }),
    {
        AnimatedSelectionIndicator { current: 0, target: 0, remaining: 0, frames }
    }

    /// Set the destination vertical offset, restarting the animation.
    pub fn update_target(&mut self, y: i32)
        requires
            old(self).wf(),
        ensures
            *final(self) == old(self).spec_retarget(y),
            final(self).wf(),
    {
        self.target = y;
        self.remaining = self.frames;
    }

    /// The current, possibly mid-animation, vertical offset.
    pub fn offset(&self) -> (r: i32)
        ensures
            r == self.current,
    {
        self.current
    }

    /// Advance one animation tick.
    pub fn update(&mut self)
        requires
            old(self).wf(),
        ensures
            *final(self) == old(self).spec_tick(),
            final(self).wf(),
    {
        if self.remaining > 0 {
            let rem: u64 = self.remaining as u64;
            if self.target >= self.current {
                let d: u64 = (self.target as i64 - self.current as i64) as u64;
                let q: u64 = (d + rem - 1) / rem;
                proof {
                    lemma_ceil_div(d as int, rem as int);
                }
                self.current = (self.current as i64 + q as i64) as i32;
            } else {
                let d: u64 = (self.current as i64 - self.target as i64) as u64;
                let q: u64 = (d + rem - 1) / rem;
                proof {
                    lemma_ceil_div(d as int, rem as int);
                }
                self.current = (self.current as i64 - q as i64) as i32;
            }
            self.remaining = self.remaining - 1;
        }
    }

    /// One tick keeps the indicator consistent, keeps its target and frame
    /// budget, moves the offset monotonically toward the target without
    /// overshooting, makes progress whenever frames and distance remain,
    /// and lands exactly on the target when the last frame is spent.
    pub proof fn lemma_tick_monotonic(self)
        requires
            self.wf(),
        ensures
            self.spec_tick().wf(),
            self.spec_tick().target == self.target,
            self.spec_tick().frames == self.frames,
            self.current <= self.target ==> self.current <= self.spec_tick().current
                <= self.target,
            self.target <= self.current ==> self.target <= self.spec_tick().current
                <= self.current,
            self.remaining > 0 && self.current != self.target ==> self.spec_tick().current
                != self.current,
            self.remaining == 1 ==> self.spec_tick().current == self.target,
    {
        if self.remaining > 0 {
            if self.target >= self.current {
                lemma_ceil_div(self.target - self.current, self.remaining as int);
            } else {
                lemma_ceil_div(self.current - self.target, self.remaining as int);
            }
        }
    }

    /// Law: once this indicator is consistent, the offset reaches the
    /// target on or before the tick that spends the last remaining frame,
    /// and stays there for every later tick.
    pub proof fn lemma_reaches_target(self, k: nat)
        requires
            self.wf(),
            self.remaining <= k,
        ensures
            self.iter_ticks(k).wf(),
            self.iter_ticks(k).current == self.target,
            self.iter_ticks(k).target == self.target,
        decreases k,
    {
        if k == 0 {
        } else {
            self.lemma_tick_monotonic();
            self.spec_tick().lemma_reaches_target((k - 1) as nat);
        }
    }

    /// Law: the offset is monotonic toward the target on every tick: each
    /// tick's offset lies between the previous tick's offset and the
    /// target, so the whole animation runs from the starting offset to
    /// the target without ever turning back or overshooting.
    pub proof fn lemma_iter_ticks_monotonic(self, k: nat)
        requires
            self.wf(),
        ensures
            self.current <= self.target ==> self.current <= self.iter_ticks(k).current
                <= self.iter_ticks((k + 1) as nat).current <= self.target,
            self.target <= self.current ==> self.target <= self.iter_ticks(
                (k + 1) as nat,
            ).current <= self.iter_ticks(k).current <= self.current,
        decreases k,
    {
        self.lemma_tick_monotonic();
        if k == 0 {
            assert(self.iter_ticks(0nat) == self);
            assert(self.iter_ticks(1nat) == self.spec_tick().iter_ticks(0nat));
            self.spec_tick().lemma_tick_monotonic();
        } else {
            assert(self.iter_ticks(k) == self.spec_tick().iter_ticks((k - 1) as nat));
            assert(self.iter_ticks((k + 1) as nat) == self.spec_tick().iter_ticks(
                ((k - 1) as nat + 1) as nat,
            ));
            self.spec_tick().lemma_iter_ticks_monotonic((k - 1) as nat);
        }
    }

    /// Every tick along the way keeps the indicator consistent and keeps
    /// its target, so the per-tick monotonicity law applies to each of the
    /// first `k` ticks in turn.
    pub proof fn lemma_iter_ticks_wf(self, k: nat)
        requires
            self.wf(),
        ensures
            self.iter_ticks(k).wf(),
            self.iter_ticks(k).target == self.target,
            self.iter_ticks(k).frames == self.frames,
        decreases k,
    {
        if k != 0 {
            self.lemma_tick_monotonic();
            self.spec_tick().lemma_iter_ticks_wf((k - 1) as nat);
        }
    }
}

} // verus!
