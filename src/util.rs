//! Sprite-sheet animation: a clip is an inclusive range of frame indices, and an
//! [`Animator`] steps through it on a frame timer.
//!
//! Time is measured in whole microseconds throughout the crate.
use vstd::arithmetic::div_mod::lemma_fundamental_div_mod_converse;
use vstd::prelude::*;

verus! {

/// Inclusive range `first..=last` of sprite-sheet frame indices forming one clip.
#[derive(Clone, Copy, Debug)]
pub struct AnimationIndices {
    pub first: usize,
    pub last: usize,
}

impl AnimationIndices {
    /// A clip holds at least one frame.
    pub open spec fn wf(self) -> bool {
        self.first <= self.last
    }

    pub open spec fn contains(self, i: int) -> bool {
        self.first <= i <= self.last
    }
}

impl PartialEq for AnimationIndices {
    fn eq(&self, other: &Self) -> (r: bool) {
        self.first == other.first && self.last == other.last
    }
}

impl vstd::std_specs::cmp::PartialEqSpecImpl for AnimationIndices {
    open spec fn obeys_eq_spec() -> bool {
        true
    }

    open spec fn eq_spec(&self, other: &AnimationIndices) -> bool {
        self.first == other.first && self.last == other.last
    }
}

/// Frame timer: `elapsed` counts up toward `period`; each full period that
/// elapses moves the animation on by one frame.
#[derive(Clone, Copy, Debug)]
pub struct AnimationTimer {
    pub elapsed: u64,
    pub period: u64,
}

impl AnimationTimer {
    /// A timer with nothing elapsed that fires every `period` microseconds.
    pub fn new(period: u64) -> (t: AnimationTimer)
        requires
            period > 0,
        ensures
            t == (AnimationTimer { elapsed: 0, period }),
    {
        AnimationTimer { elapsed: 0, period }
    }
}

/// The frame shown after one step from `index` within `indices`: the next one,
/// or at the end of the clip back to `first` when looping, else the same one.
pub open spec fn step_index(index: usize, indices: AnimationIndices, loops: bool) -> usize {
    if index == indices.last {
        if loops {
            indices.first
        } else {
            index
        }
    } else {
        (index + 1) as usize
    }
}

/// The frame shown after `steps` steps from `index`.
pub open spec fn advance_index(
    index: usize,
    indices: AnimationIndices,
    loops: bool,
    steps: nat,
) -> usize
    decreases steps,
{
    if steps == 0 {
        index
    } else {
        step_index(advance_index(index, indices, loops, (steps - 1) as nat), indices, loops)
    }
}

/// Steps the displayed frame of one actor through its current clip.
#[derive(Clone, Copy, Debug)]
pub struct Animator {
    pub index: usize,
    pub timer: AnimationTimer,
    pub indices: AnimationIndices,
    pub loops: bool,
}

impl Animator {
    /// The displayed frame lies in the current clip, and the timer can fire.
    pub open spec fn wf(self) -> bool {
        &&& self.indices.wf()
        &&& self.indices.contains(self.index as int)
        &&& self.timer.period > 0
    }

    /// The animator after `delta` microseconds: one step per whole period in
    /// the accumulated time, and the remainder kept toward the next step.
    pub open spec fn ticked(self, delta: u64) -> Animator {
        let total = self.timer.elapsed + delta;
        let period = self.timer.period as int;
        Animator {
            index: advance_index(self.index, self.indices, self.loops, (total / period) as nat),
            timer: AnimationTimer { elapsed: (total % period) as u64, period: self.timer.period },
            ..self
        }
    }

    /// The animator after a clip switch to `indices`: a different clip starts
    /// over at its first frame with a fresh timer; the same clip is left alone.
    pub open spec fn with_indices(self, indices: AnimationIndices) -> Animator {
        if indices == self.indices {
            self
        } else {
            Animator {
                index: indices.first,
                timer: AnimationTimer { elapsed: 0, period: self.timer.period },
                indices,
                ..self
            }
        }
    }

    pub open spec fn with_period(self, period: u64) -> Animator {
        Animator { timer: AnimationTimer { period, ..self.timer }, ..self }
    }

    pub open spec fn with_loops(self, loops: bool) -> Animator {
        Animator { loops, ..self }
    }

    /// The animator after switching to the clip `indices`, shown `period`
    /// microseconds per frame, looping or not.
    pub open spec fn playing(self, indices: AnimationIndices, period: u64, loops: bool) -> Animator {
        self.with_indices(indices).with_period(period).with_loops(loops)
    }

    /// The animator after one tick per entry of `deltas`, in order.
    pub open spec fn ticked_all(self, deltas: Seq<u64>) -> Animator
        decreases deltas.len(),
    {
        if deltas.len() == 0 {
            self
        } else {
            self.ticked(deltas[0]).ticked_all(deltas.drop_first())
        }
    }

    /// An animator that shows the first frame of `indices`.
    pub fn new(timer: AnimationTimer, indices: AnimationIndices, loops: bool) -> (a: Animator)
        requires
            indices.wf(),
            timer.period > 0,
        ensures
            a == (Animator { index: indices.first, timer, indices, loops }),
            a.wf(),
    {
        Animator { index: indices.first, timer, indices, loops }
    }

    /// Adds `delta` microseconds to the frame timer and, for each whole period
    /// that has now elapsed, consumes it and steps the displayed frame once.
    pub fn tick(&mut self, delta: u64)
        requires
            old(self).wf(),
        ensures
            *final(self) == old(self).ticked(delta),
            final(self).wf(),
    {
        let period = self.timer.period as u128;
        let mut acc: u128 = self.timer.elapsed as u128 + delta as u128;
        let ghost total: int = acc as int;
        let ghost mut steps: nat = 0;
        while acc >= period
            invariant
                period == old(self).timer.period,
                period > 0,
                acc + steps * period == total,
                total == old(self).timer.elapsed + delta,
                self.index == advance_index(old(self).index, old(self).indices, old(self).loops, steps),
                self.indices == old(self).indices,
                self.loops == old(self).loops,
                self.timer == old(self).timer,
                self.wf(),
            decreases acc,
        {
            acc = acc - period;
            if self.index == self.indices.last {
                if self.loops {
                    self.index = self.indices.first;
                }
            } else {
                self.index = self.index + 1;
            }
            proof {
                assert((steps + 1) * period == steps * period + period) by (nonlinear_arith);
                steps = steps + 1;
            }
        }
        proof {
            lemma_fundamental_div_mod_converse(total, period as int, steps as int, acc as int);
        }
        self.timer.elapsed = acc as u64;
    }

    /// Sets the length of one frame, in microseconds.
    pub fn set_frametime(&mut self, period: u64)
        requires
            period > 0,
        ensures
            *final(self) == old(self).with_period(period),
    {
        self.timer.period = period;
    }

    /// Switches to the clip `indices`; switching to the clip already shown
    /// changes nothing, so that re-selecting it every frame does not restart it.
    pub fn set_indices(&mut self, indices: AnimationIndices)
        ensures
            *final(self) == old(self).with_indices(indices),
    {
        if indices != self.indices {
            self.indices = indices;
            self.index = indices.first;
            self.timer.elapsed = 0;
        }
    }

    /// Switches to the clip `indices` as [`Animator::set_indices`] does, then
    /// sets the frame time and whether the clip loops.
    pub fn play(&mut self, indices: AnimationIndices, period: u64, loops: bool)
        requires
            period > 0,
        ensures
            *final(self) == old(self).playing(indices, period, loops),
    {
        self.set_indices(indices);
        self.set_frametime(period);
        self.loops = loops;
    }

    /// Switches to the clip `first..=last`, as [`Animator::set_indices`] does.
    pub fn set_indices_from_bounds(&mut self, first: usize, last: usize)
        ensures
            *final(self) == old(self).with_indices(AnimationIndices { first, last }),
    {
        self.set_indices(AnimationIndices { first, last });
    }
}

proof fn lemma_advance_stays_in_clip(
    index: usize,
    indices: AnimationIndices,
    loops: bool,
    steps: nat,
)
    requires
        indices.wf(),
        indices.contains(index as int),
    ensures
        indices.contains(advance_index(index, indices, loops, steps) as int),
    decreases steps,
{
    if steps > 0 {
        lemma_advance_stays_in_clip(index, indices, loops, (steps - 1) as nat);
    }
}

/// One tick keeps an animator well formed, on the same clip.
pub proof fn lemma_tick_keeps_frame_in_clip(a: Animator, delta: u64)
    requires
        a.wf(),
    ensures
        a.ticked(delta).wf(),
        a.ticked(delta).indices == a.indices,
{
    let period = a.timer.period as int;
    let total = a.timer.elapsed + delta;
    lemma_advance_stays_in_clip(a.index, a.indices, a.loops, (total / period) as nat);
}

/// However many ticks an animator takes, of whatever lengths, its displayed
/// frame stays within its clip: `first <= index <= last`.
pub proof fn lemma_ticks_keep_frame_in_clip(a: Animator, deltas: Seq<u64>)
    requires
        a.wf(),
    ensures
        a.ticked_all(deltas).wf(),
        a.ticked_all(deltas).indices == a.indices,
    decreases deltas.len(),
{
    if deltas.len() > 0 {
        lemma_tick_keeps_frame_in_clip(a, deltas[0]);
        lemma_ticks_keep_frame_in_clip(a.ticked(deltas[0]), deltas.drop_first());
    }
}

/// Selecting the clip that is already shown changes nothing, neither the
/// displayed frame nor the time elapsed toward the next one; so selecting one
/// clip again and again has the effect of selecting it once.
pub proof fn lemma_same_clip_does_not_restart(a: Animator, indices: AnimationIndices)
    ensures
        a.indices == indices ==> a.with_indices(indices) == a,
        a.with_indices(indices).with_indices(indices) == a.with_indices(indices),
{
}

} // verus!
