//! The enemy's per-frame action state machine, driven by a random choice of
//! action whenever every one of its timers has run out.
use crate::motion::{
    ease_complement, ease_share, quartic_complement, quartic_share, toward, ActionDirection, Point,
};
use crate::player::{self, count_down, countdown};
use crate::util::{AnimationIndices, Animator};
use vstd::prelude::*;

verus! {

/// How long a block lasts, in microseconds.
pub const BLOCK_DURATION: u64 = 750_000;

/// How long the enemy winds up before a punch strikes, in microseconds.
pub const PUNCH_WARNING_DURATION: u64 = 1_000_000;

/// How long the strike of a punch lasts, in microseconds.
pub const PUNCH_DURATION: u64 = 500_000;

/// How long the enemy holds the pose of having just been struck, in microseconds.
pub const IS_HIT_TIMER: u64 = 50_000;

/// How long the enemy stands idle when it chooses to do nothing, in microseconds.
pub const WAIT_DURATION: u64 = 1_500_000;

/// Hits that one live player punch can land on the enemy.
pub const MAX_HITS_IN_WINDOW: u32 = 2;

/// Number of equally likely outcomes of the enemy's choice of action.
pub const ACTION_COUNT: u8 = 6;

/// Outcomes of the choice of action; every other outcome is to stand idle.
pub const ACTION_BLOCK: u8 = 1;

pub const ACTION_PUNCH_LEFT: u8 = 2;

pub const ACTION_PUNCH_RIGHT: u8 = 3;

/// How far a strike sways the enemy sideways, in thousandths of a pixel.
pub const STRIKE_SWAY: u64 = 5_000;

/// How far a strike lunges the enemy down, in thousandths of a pixel.
pub const STRIKE_LUNGE: u64 = 60_000;

/// Frame times, in microseconds, of the enemy's clips.
pub const QUICK_FRAME: u64 = 100_000;

pub const WARNING_FRAME: u64 = 200_000;

pub const SLOW_FRAME: u64 = 300_000;

/// The enemy's clips, one frame range per action.
#[derive(Clone, Copy, Debug)]
pub struct EnemyStates {
    pub idle: AnimationIndices,
    pub punch_warning: AnimationIndices,
    pub punch: AnimationIndices,
    pub hit: AnimationIndices,
    pub block: AnimationIndices,
}

impl EnemyStates {
    pub open spec fn wf(self) -> bool {
        &&& self.idle.wf()
        &&& self.punch_warning.wf()
        &&& self.punch.wf()
        &&& self.hit.wf()
        &&& self.block.wf()
    }
}

/// The enemy: timers in microseconds, positions in thousandths of a pixel.
/// `punch_timer` covers the wind-up and then the strike of a punch.
#[derive(Clone, Copy, Debug)]
pub struct Enemy {
    pub action_dir: ActionDirection,
    pub punch_timer: u64,
    pub states: EnemyStates,
    pub block_timer: u64,
    pub wait_timer: u64,
    pub origin: Point,
    pub animator: Animator,
    pub is_hit_timer: u64,
    /// Hits taken since the enemy last acted on its own.
    pub hits_taken: u32,
    pub hits_taken_total: u64,
    /// Where the enemy is drawn.
    pub translation: Point,
    /// Whether the sprite is drawn mirrored.
    pub flip_x: bool,
}

/// The player's punch is in its active window: its first quarter.
pub open spec fn player_punch_live(player_punch_timer: u64) -> bool {
    player::PUNCH_DURATION - player_punch_timer < player::PUNCH_DURATION / 4
}

/// Sideways offset of the enemy `remaining` microseconds before its strike ends.
pub open spec fn strike_dx(dir: ActionDirection, remaining: u64) -> int {
    toward(dir, quartic_complement(remaining, PUNCH_DURATION, STRIKE_SWAY) as int)
}

/// Vertical offset of the enemy `remaining` microseconds before its strike ends.
pub open spec fn strike_dy(remaining: u64) -> int {
    -(quartic_share(remaining, PUNCH_DURATION, STRIKE_LUNGE) as int)
}

/// Relies on `rand::Rng::gen_range` over the thread-local generator of
/// `rand::thread_rng`: a value drawn uniformly from `0..n`. An empty range
/// panics, which `n > 0` rules out.
#[verifier::external_body]
fn random_below(n: u8) -> (r: u8)
    requires
        n > 0,
    ensures
        r < n,
{
    rand::Rng::gen_range(&mut rand::thread_rng(), 0..n)
}

impl Enemy {
    pub open spec fn wf(self) -> bool {
        &&& self.origin.in_bounds()
        &&& self.animator.wf()
        &&& self.states.wf()
    }

    /// The player's punch lands: it is live, this window has not used up its
    /// hits, and the enemy is not blocking.
    pub open spec fn is_struck(self, player_punch_timer: u64) -> bool {
        &&& player_punch_live(player_punch_timer)
        &&& self.hits_taken < MAX_HITS_IN_WINDOW
        &&& self.block_timer == 0
    }

    /// Every timer has run out: the enemy chooses a new action.
    pub open spec fn at_decision_point(self) -> bool {
        &&& self.block_timer == 0
        &&& self.punch_timer == 0
        &&& self.wait_timer == 0
        &&& self.is_hit_timer == 0
    }

    /// At most one of the block, punch and wait timers is running.
    pub open spec fn one_action_at_most(self) -> bool {
        &&& self.block_timer > 0 ==> self.punch_timer == 0 && self.wait_timer == 0
        &&& self.punch_timer > 0 ==> self.block_timer == 0 && self.wait_timer == 0
        &&& self.wait_timer > 0 ==> self.block_timer == 0 && self.punch_timer == 0
    }

    /// The enemy after one frame of `delta` microseconds, with the player's
    /// punch timer as it stood before the frame, and `roll` as the choice of
    /// action should the enemy choose one.
    pub open spec fn stepped(self, player_punch_timer: u64, roll: u8, delta: u64) -> Enemy {
        if self.is_struck(player_punch_timer) {
            Enemy {
                animator: self.animator.playing(self.states.hit, QUICK_FRAME, false).ticked(delta),
                is_hit_timer: IS_HIT_TIMER,
                punch_timer: (PUNCH_WARNING_DURATION + PUNCH_DURATION) as u64,
                wait_timer: 0,
                hits_taken: (self.hits_taken + 1) as u32,
                hits_taken_total: (self.hits_taken_total + 1) as u64,
                ..self
            }
        } else {
            let e = self.acted(roll, delta);
            Enemy { animator: e.animator.ticked(delta), ..e }
        }
    }

    /// The enemy after the action part of a frame in which nothing struck it.
    /// The first running timer, in the order hit-stun, block, punch, wait,
    /// runs down; with none running the enemy chooses anew.
    pub open spec fn acted(self, roll: u8, delta: u64) -> Enemy {
        if self.at_decision_point() {
            Enemy { translation: self.origin, ..self }.decided(roll)
        } else if self.is_hit_timer > 0 {
            Enemy {
                animator: self.animator.with_indices(self.states.hit).with_period(SLOW_FRAME),
                is_hit_timer: countdown(self.is_hit_timer, delta),
                ..self
            }
        } else if self.block_timer > 0 && self.punch_timer == 0 {
            Enemy { hits_taken: 0, block_timer: countdown(self.block_timer, delta), ..self }
        } else if self.punch_timer > 0 {
            if self.punch_timer < PUNCH_DURATION {
                Enemy {
                    hits_taken: 0,
                    animator: self.animator.with_indices(self.states.punch).with_period(SLOW_FRAME),
                    translation: self.origin.shifted(
                        strike_dx(self.action_dir, self.punch_timer),
                        strike_dy(self.punch_timer),
                    ),
                    punch_timer: countdown(self.punch_timer, delta),
                    ..self
                }
            } else {
                Enemy { punch_timer: countdown(self.punch_timer, delta), ..self }
            }
        } else if self.wait_timer > 0 {
            Enemy { hits_taken: 0, wait_timer: countdown(self.wait_timer, delta), ..self }
        } else {
            self
        }
    }

    /// The enemy after choosing the action `roll`: block, wind up a punch to
    /// the left or to the right, or else stand idle for a while.
    pub open spec fn decided(self, roll: u8) -> Enemy {
        if roll == ACTION_BLOCK {
            Enemy {
                animator: self.animator.playing(self.states.block, QUICK_FRAME, false),
                block_timer: BLOCK_DURATION,
                ..self
            }
        } else if roll == ACTION_PUNCH_LEFT || roll == ACTION_PUNCH_RIGHT {
            let dir = if roll == ACTION_PUNCH_LEFT {
                ActionDirection::Left
            } else {
                ActionDirection::Right
            };
            Enemy {
                flip_x: roll == ACTION_PUNCH_RIGHT,
                animator: self.animator.playing(self.states.punch_warning, WARNING_FRAME, true),
                action_dir: dir,
                punch_timer: (PUNCH_WARNING_DURATION + PUNCH_DURATION) as u64,
                ..self
            }
        } else {
            Enemy {
                animator: self.animator.playing(self.states.idle, SLOW_FRAME, true),
                block_timer: 0,
                wait_timer: WAIT_DURATION,
                ..self
            }
        }
    }

    /// The enemy after one frame per entry of `frames`, in order; an entry
    /// holds the player's punch timer, the choice of action and the frame's length.
    pub open spec fn run(self, frames: Seq<(u64, u8, u64)>) -> Enemy
        decreases frames.len(),
    {
        if frames.len() == 0 {
            self
        } else {
            self.stepped(frames[0].0, frames[0].1, frames[0].2).run(frames.drop_first())
        }
    }

    /// An enemy at rest at `origin`, showing `animator`'s clip.
    pub fn new(origin: Point, animator: Animator, states: EnemyStates) -> (e: Enemy)
        requires
            origin.in_bounds(),
            animator.wf(),
            states.wf(),
        ensures
            e == (Enemy {
                action_dir: ActionDirection::Neutral,
                punch_timer: 0,
                states,
                block_timer: 0,
                wait_timer: 0,
                origin,
                animator,
                is_hit_timer: 0,
                hits_taken: 0,
                hits_taken_total: 0,
                translation: origin,
                flip_x: false,
            }),
            e.wf(),
    {
        Enemy {
            action_dir: ActionDirection::Neutral,
            punch_timer: 0,
            states,
            block_timer: 0,
            wait_timer: 0,
            origin,
            animator,
            is_hit_timer: 0,
            hits_taken: 0,
            hits_taken_total: 0,
            translation: origin,
            flip_x: false,
        }
    }

    fn decide(&mut self, roll: u8)
        requires
            old(self).wf(),
        ensures
            *final(self) == old(self).decided(roll),
    {
        if roll == ACTION_BLOCK {
            self.animator.play(self.states.block, QUICK_FRAME, false);
            self.block_timer = BLOCK_DURATION;
        } else if roll == ACTION_PUNCH_LEFT {
            self.flip_x = false;
            self.animator.play(self.states.punch_warning, WARNING_FRAME, true);
            self.action_dir = ActionDirection::Left;
            self.punch_timer = PUNCH_WARNING_DURATION + PUNCH_DURATION;
        } else if roll == ACTION_PUNCH_RIGHT {
            self.flip_x = true;
            self.animator.play(self.states.punch_warning, WARNING_FRAME, true);
            self.action_dir = ActionDirection::Right;
            self.punch_timer = PUNCH_WARNING_DURATION + PUNCH_DURATION;
        } else {
            self.animator.play(self.states.idle, SLOW_FRAME, true);
            self.block_timer = 0;
            self.wait_timer = WAIT_DURATION;
        }
    }

    fn act(&mut self, roll: u8, delta: u64)
        requires
            old(self).wf(),
        ensures
            *final(self) == old(self).acted(roll, delta),
    {
        if self.block_timer == 0 && self.punch_timer == 0 && self.wait_timer == 0
            && self.is_hit_timer == 0 {
            self.translation = self.origin;
            self.decide(roll);
        } else if self.is_hit_timer > 0 {
            self.animator.set_indices(self.states.hit);
            self.animator.set_frametime(SLOW_FRAME);
            self.is_hit_timer = count_down(self.is_hit_timer, delta);
        } else if self.block_timer > 0 && self.punch_timer == 0 {
            self.hits_taken = 0;
            self.block_timer = count_down(self.block_timer, delta);
        } else if self.punch_timer > 0 {
            if self.punch_timer < PUNCH_DURATION {
                self.hits_taken = 0;
                self.animator.set_indices(self.states.punch);
                self.animator.set_frametime(SLOW_FRAME);
                let sway = ease_complement(self.punch_timer, PUNCH_DURATION, STRIKE_SWAY) as i64;
                let dx: i64 = match self.action_dir {
                    ActionDirection::Neutral => 0,
                    ActionDirection::Left => -sway,
                    ActionDirection::Right => sway,
                };
                let dy = -(ease_share(self.punch_timer, PUNCH_DURATION, STRIKE_LUNGE) as i64);
                self.translation = self.origin.shift(dx, dy);
            }
            self.punch_timer = count_down(self.punch_timer, delta);
        } else if self.wait_timer > 0 {
            self.hits_taken = 0;
            self.wait_timer = count_down(self.wait_timer, delta);
        }
    }
}

/// Runs one frame of `delta` microseconds for the enemy, given the player's
/// punch timer as it stood before the frame, with `roll` as the choice of
/// action should every timer have run out.
///
/// A live player punch that the enemy does not block, and that has not yet
/// landed twice, puts the enemy in hit-stun and throws it out of any attack
/// or wait;
/// else the first running timer runs down, or with none running the enemy
/// acts on `roll`. The animator then ticks.
pub fn update_enemy_with_roll(enemy: &mut Enemy, player_punch_timer: u64, roll: u8, delta: u64)
    requires
        old(enemy).wf(),
        old(enemy).hits_taken_total < u64::MAX,
    ensures
        *final(enemy) == old(enemy).stepped(player_punch_timer, roll, delta),
        final(enemy).wf(),
{
    if player_punch_timer > player::PUNCH_DURATION - player::PUNCH_DURATION / 4
        && enemy.hits_taken < MAX_HITS_IN_WINDOW && enemy.block_timer == 0 {
        enemy.animator.play(enemy.states.hit, QUICK_FRAME, false);
        enemy.is_hit_timer = IS_HIT_TIMER;
        enemy.punch_timer = PUNCH_WARNING_DURATION + PUNCH_DURATION;
        enemy.wait_timer = 0;
        enemy.hits_taken = enemy.hits_taken + 1;
        enemy.hits_taken_total = enemy.hits_taken_total + 1;
        enemy.animator.tick(delta);
        return;
    }
    enemy.act(roll, delta);
    enemy.animator.tick(delta);
}

/// Runs one frame for the enemy as [`update_enemy_with_roll`] does, drawing
/// the choice of action at random, uniformly from `0..ACTION_COUNT`, when the
/// enemy gets to choose one.
pub fn update_enemy_movement(enemy: &mut Enemy, player_punch_timer: u64, delta: u64)
    requires
        old(enemy).wf(),
        old(enemy).hits_taken_total < u64::MAX,
    ensures
        exists|roll: u8|
            roll < ACTION_COUNT && *final(enemy) == old(enemy).stepped(
                player_punch_timer,
                roll,
                delta,
            ),
        final(enemy).wf(),
{
    let struck = player_punch_timer > player::PUNCH_DURATION - player::PUNCH_DURATION / 4
        && enemy.hits_taken < MAX_HITS_IN_WINDOW && enemy.block_timer == 0;
    let choosing = enemy.block_timer == 0 && enemy.punch_timer == 0 && enemy.wait_timer == 0
        && enemy.is_hit_timer == 0;
    let roll = if !struck && choosing {
        random_below(ACTION_COUNT)
    } else {
        0
    };
    update_enemy_with_roll(enemy, player_punch_timer, roll, delta);
}

/// After any frame, at most one of the block, punch and wait timers runs,
/// provided at most one ran before it. While the enemy is in hit-stun, the
/// frame leaves those three timers as they are.
pub proof fn lemma_one_action_at_most(e: Enemy, player_punch_timer: u64, roll: u8, delta: u64)
    requires
        e.one_action_at_most(),
    ensures
        e.stepped(player_punch_timer, roll, delta).one_action_at_most(),
        !e.is_struck(player_punch_timer) && e.is_hit_timer > 0 ==> {
            let next = e.stepped(player_punch_timer, roll, delta);
            &&& next.block_timer == e.block_timer
            &&& next.punch_timer == e.punch_timer
            &&& next.wait_timer == e.wait_timer
        },
{
}

/// However many frames pass, with whatever player punches, choices and frame
/// lengths, the hits counted against one window never exceed
/// `MAX_HITS_IN_WINDOW`.
pub proof fn lemma_hit_cap(e: Enemy, frames: Seq<(u64, u8, u64)>)
    requires
        e.hits_taken <= MAX_HITS_IN_WINDOW,
    ensures
        e.run(frames).hits_taken <= MAX_HITS_IN_WINDOW,
    decreases frames.len(),
{
    if frames.len() > 0 {
        lemma_hit_cap(e.stepped(frames[0].0, frames[0].1, frames[0].2), frames.drop_first());
    }
}

/// Total length, in microseconds, of the frames in `frames`.
pub open spec fn frames_time(frames: Seq<(u64, u8, u64)>) -> int
    decreases frames.len(),
{
    if frames.len() == 0 {
        0
    } else {
        frames[0].2 + frames_time(frames.drop_first())
    }
}

proof fn lemma_frames_time_nonnegative(frames: Seq<(u64, u8, u64)>)
    ensures
        frames_time(frames) >= 0,
    decreases frames.len(),
{
    if frames.len() > 0 {
        lemma_frames_time_nonnegative(frames.drop_first());
    }
}

/// In one frame the lifetime hit count grows by one exactly when the player's
/// punch lands, and the hits counted against the window stay within
/// `MAX_HITS_IN_WINDOW`.
pub proof fn lemma_hit_counted(e: Enemy, player_punch_timer: u64, roll: u8, delta: u64)
    requires
        e.hits_taken <= MAX_HITS_IN_WINDOW,
        e.hits_taken_total < u64::MAX,
    ensures
        e.stepped(player_punch_timer, roll, delta).hits_taken <= MAX_HITS_IN_WINDOW,
        e.stepped(player_punch_timer, roll, delta).hits_taken_total == e.hits_taken_total + if e.is_struck(
            player_punch_timer,
        ) {
            1int
        } else {
            0int
        },
{
}

/// Once a hit has landed, no other timer runs and the punch timer stays in
/// its wind-up for at least `frames`: the window count is never reset, so at
/// most `MAX_HITS_IN_WINDOW - hits_taken` more hits land.
proof fn lemma_no_reset_after_hit(e: Enemy, frames: Seq<(u64, u8, u64)>)
    requires
        e.hits_taken <= MAX_HITS_IN_WINDOW,
        e.punch_timer >= PUNCH_DURATION + frames_time(frames),
        frames_time(frames) <= PUNCH_WARNING_DURATION,
        e.block_timer == 0,
        e.wait_timer == 0,
        e.hits_taken_total + MAX_HITS_IN_WINDOW - e.hits_taken <= u64::MAX,
    ensures
        e.run(frames).hits_taken_total <= e.hits_taken_total + MAX_HITS_IN_WINDOW - e.hits_taken,
    decreases frames.len(),
{
    if frames.len() > 0 {
        let rest = frames.drop_first();
        lemma_frames_time_nonnegative(rest);
        let next = e.stepped(frames[0].0, frames[0].1, frames[0].2);
        assert(e.run(frames) == next.run(rest));
        lemma_no_reset_after_hit(next, rest);
    }
}

/// Frames that together last no longer than the active window of one player
/// punch, with that punch live at each of them, land at most
/// `MAX_HITS_IN_WINDOW` hits between them.
pub proof fn lemma_one_window_two_hits(e: Enemy, frames: Seq<(u64, u8, u64)>)
    requires
        e.hits_taken <= MAX_HITS_IN_WINDOW,
        forall|i: int| 0 <= i < frames.len() ==> player_punch_live(#[trigger] frames[i].0),
        frames_time(frames) <= player::PUNCH_DURATION / 4,
        e.hits_taken_total + MAX_HITS_IN_WINDOW <= u64::MAX,
    ensures
        e.run(frames).hits_taken_total <= e.hits_taken_total + MAX_HITS_IN_WINDOW,
    decreases frames.len(),
{
    if frames.len() > 0 {
        let rest = frames.drop_first();
        lemma_frames_time_nonnegative(rest);
        let next = e.stepped(frames[0].0, frames[0].1, frames[0].2);
        assert(e.run(frames) == next.run(rest));
        if e.is_struck(frames[0].0) {
            lemma_no_reset_after_hit(next, rest);
        } else {
            assert forall|i: int| 0 <= i < rest.len() implies player_punch_live(
                #[trigger] rest[i].0,
            ) by {
                assert(rest[i] == frames[i + 1]);
            }
            lemma_one_window_two_hits(next, rest);
        }
    }
}

/// While the enemy blocks, the player's punch never lands: no hit is counted,
/// neither hit-stun nor the punch timer rises, and the window count does not grow.
pub proof fn lemma_block_stops_hits(e: Enemy, player_punch_timer: u64, roll: u8, delta: u64)
    requires
        e.block_timer > 0,
    ensures
        ({
            let next = e.stepped(player_punch_timer, roll, delta);
            &&& next.hits_taken_total == e.hits_taken_total
            &&& next.hits_taken <= e.hits_taken
            &&& next.is_hit_timer <= e.is_hit_timer
            &&& next.punch_timer <= e.punch_timer
        }),
{
}

/// While the enemy winds up a punch, out of hit-stun and with no player punch
/// live, its punch timer runs down by exactly the time that passes, and it
/// stays where it is, on the same clip, facing the same way. So a wind-up of
/// `PUNCH_WARNING_DURATION + PUNCH_DURATION` has, after frames lasting
/// `PUNCH_WARNING_DURATION` in all, `PUNCH_DURATION` left, still in place.
pub proof fn lemma_wind_up_stays_put(e: Enemy, frames: Seq<(u64, u8, u64)>)
    requires
        e.punch_timer >= PUNCH_DURATION + frames_time(frames),
        e.is_hit_timer == 0,
        forall|i: int| 0 <= i < frames.len() ==> !player_punch_live(#[trigger] frames[i].0),
    ensures
        e.run(frames).punch_timer == e.punch_timer - frames_time(frames),
        e.run(frames).translation == e.translation,
        e.run(frames).animator.indices == e.animator.indices,
        e.run(frames).animator.loops == e.animator.loops,
        e.run(frames).action_dir == e.action_dir,
        e.run(frames).is_hit_timer == 0,
    decreases frames.len(),
{
    if frames.len() > 0 {
        let rest = frames.drop_first();
        lemma_frames_time_nonnegative(rest);
        let next = e.stepped(frames[0].0, frames[0].1, frames[0].2);
        assert(!player_punch_live(frames[0].0));
        assert(e.run(frames) == next.run(rest));
        assert forall|i: int| 0 <= i < rest.len() implies !player_punch_live(
            #[trigger] rest[i].0,
        ) by {
            assert(rest[i] == frames[i + 1]);
        }
        lemma_wind_up_stays_put(next, rest);
    }
}

} // verus!
