//! The player's per-frame action state machine, driven by button input.
//!
//! Each frame resolves, in order: defeat, an incoming enemy strike, then
//! either a new decision (all timers run out) or the action in progress.
use crate::enemy;
use crate::motion::{
    ease_complement, ease_share, quartic_complement, quartic_share, toward, ActionDirection, Point,
};
use crate::util::{AnimationIndices, Animator};
use vstd::prelude::*;

verus! {

/// How far a dodge carries the player sideways, in thousandths of a pixel.
pub const DODGE_DISTANCE: u64 = 75_000;

/// How long a dodge lasts, in microseconds.
pub const DODGE_DURATION: u64 = 750_000;

/// How long a punch lasts, in microseconds.
pub const PUNCH_DURATION: u64 = 500_000;

/// How long the player holds the pose of having just been struck, in microseconds.
pub const IS_HIT_TIMER: u64 = 100_000;

/// Hits the player can take; one more is a defeat.
pub const MAX_HITS: u32 = 15;

/// How far a punch sways the player sideways, in thousandths of a pixel.
pub const PUNCH_SWAY: u64 = 5_000;

/// How far a punch dips the player, in thousandths of a pixel.
pub const PUNCH_DIP: u64 = 15_000;

/// Frame times, in microseconds, of the player's clips.
pub const QUICK_FRAME: u64 = 100_000;

pub const PUNCH_FRAME: u64 = 30_000;

pub const SLOW_FRAME: u64 = 300_000;

/// The player's clips, one frame range per action.
#[derive(Clone, Copy, Debug)]
pub struct PlayerStates {
    pub idle: AnimationIndices,
    pub punch: AnimationIndices,
    pub hit: AnimationIndices,
    pub block: AnimationIndices,
    pub dodge: AnimationIndices,
    pub death: AnimationIndices,
}

impl PlayerStates {
    pub open spec fn wf(self) -> bool {
        &&& self.idle.wf()
        &&& self.punch.wf()
        &&& self.hit.wf()
        &&& self.block.wf()
        &&& self.dodge.wf()
        &&& self.death.wf()
    }
}

/// The buttons read in one frame: block is held, the others were just pressed.
#[derive(Clone, Copy, Debug, PartialEq, Eq, Structural)]
pub struct PlayerInput {
    pub block: bool,
    pub dodge_left: bool,
    pub dodge_right: bool,
    pub punch_left: bool,
    pub punch_right: bool,
}

/// The player: timers in microseconds, positions in thousandths of a pixel.
#[derive(Clone, Copy, Debug)]
pub struct Player {
    pub dodge_timer: u64,
    pub action_dir: ActionDirection,
    pub punch_timer: u64,
    pub states: PlayerStates,
    pub blocking: bool,
    pub origin: Point,
    pub animator: Animator,
    pub is_hit_timer: u64,
    pub hits_taken_total: u32,
    /// Where the player is drawn.
    pub translation: Point,
    /// Whether the sprite is drawn mirrored.
    pub flip_x: bool,
}

/// The enemy's strike is live: its punch timer has run down into the strike
/// phase and not yet out of it. A timer at rest, at zero, is no strike.
pub open spec fn enemy_strike_live(enemy_punch_timer: u64) -> bool {
    0 < enemy_punch_timer < enemy::PUNCH_DURATION
}

/// `timer` run down by `delta`, stopping at zero.
pub open spec fn countdown(timer: u64, delta: u64) -> u64 {
    if timer > delta {
        (timer - delta) as u64
    } else {
        0
    }
}

pub fn count_down(timer: u64, delta: u64) -> (r: u64)
    ensures
        r == countdown(timer, delta),
{
    if timer > delta {
        timer - delta
    } else {
        0
    }
}

/// Sideways offset of the player `remaining` microseconds before a dodge ends.
pub open spec fn dodge_dx(dir: ActionDirection, remaining: u64) -> int {
    toward(dir, quartic_complement(remaining, DODGE_DURATION, DODGE_DISTANCE) as int)
}

/// Sideways offset of the player `remaining` microseconds before a punch ends.
pub open spec fn punch_dx(dir: ActionDirection, remaining: u64) -> int {
    -toward(dir, quartic_complement(remaining, PUNCH_DURATION, PUNCH_SWAY) as int)
}

/// Vertical offset of the player `remaining` microseconds before a punch ends.
pub open spec fn punch_dy(remaining: u64) -> int {
    -(quartic_share(remaining, PUNCH_DURATION, PUNCH_DIP) as int)
}

fn signed_toward(dir: ActionDirection, magnitude: u64) -> (r: i64)
    requires
        magnitude <= 1_000_000,
    ensures
        r == toward(dir, magnitude as int),
{
    match dir {
        ActionDirection::Neutral => 0,
        ActionDirection::Left => -(magnitude as i64),
        ActionDirection::Right => magnitude as i64,
    }
}

impl Player {
    pub open spec fn wf(self) -> bool {
        &&& self.origin.in_bounds()
        &&& self.animator.wf()
        &&& self.states.wf()
    }

    /// More hits taken than the player can stand.
    pub open spec fn is_dead(self) -> bool {
        self.hits_taken_total > MAX_HITS
    }

    /// The enemy's strike lands: it is live, and the player neither blocks nor dodges.
    pub open spec fn is_struck(self, enemy_punch_timer: u64) -> bool {
        enemy_strike_live(enemy_punch_timer) && !self.blocking && self.dodge_timer == 0
    }

    /// All action timers have run out: the player may start something new.
    pub open spec fn at_decision_point(self) -> bool {
        self.dodge_timer == 0 && self.punch_timer == 0 && self.is_hit_timer == 0
    }

    /// The player after one frame of `delta` microseconds, with the enemy's
    /// punch timer as it stood before the frame.
    pub open spec fn stepped(self, enemy_punch_timer: u64, input: PlayerInput, delta: u64) -> Player {
        if self.is_dead() {
            Player {
                animator: self.animator.playing(self.states.death, QUICK_FRAME, false),
                ..self
            }
        } else if self.is_struck(enemy_punch_timer) {
            Player {
                animator: self.animator.playing(self.states.hit, QUICK_FRAME, false).ticked(delta),
                is_hit_timer: IS_HIT_TIMER,
                punch_timer: 0,
                hits_taken_total: (self.hits_taken_total + 1) as u32,
                ..self
            }
        } else {
            let p = self.acted(input, delta);
            Player { animator: p.animator.ticked(delta), ..p }
        }
    }

    /// The player after the action part of a frame in which nothing struck it.
    pub open spec fn acted(self, input: PlayerInput, delta: u64) -> Player {
        if self.at_decision_point() {
            Player { translation: self.origin, blocking: false, ..self }.decided(input)
        } else if self.is_hit_timer > 0 {
            Player {
                animator: self.animator.with_indices(self.states.hit).with_period(SLOW_FRAME),
                is_hit_timer: countdown(self.is_hit_timer, delta),
                ..self
            }
        } else if self.dodge_timer > 0 && self.punch_timer == 0 {
            Player {
                blocking: false,
                translation: self.origin.shifted(dodge_dx(self.action_dir, self.dodge_timer), 0),
                dodge_timer: countdown(self.dodge_timer, delta),
                ..self
            }
        } else if self.punch_timer > 0 {
            Player {
                translation: self.origin.shifted(
                    punch_dx(self.action_dir, self.punch_timer),
                    punch_dy(self.punch_timer),
                ),
                punch_timer: countdown(self.punch_timer, delta),
                ..self
            }
        } else {
            self
        }
    }

    /// The player after choosing an action from `input`, by priority: block,
    /// dodge left, dodge right, punch left, punch right, else stand idle.
    pub open spec fn decided(self, input: PlayerInput) -> Player {
        if input.block {
            Player {
                animator: self.animator.playing(self.states.block, QUICK_FRAME, false),
                blocking: true,
                ..self
            }
        } else if input.dodge_left || input.dodge_right {
            let dir = if input.dodge_left {
                ActionDirection::Left
            } else {
                ActionDirection::Right
            };
            Player {
                flip_x: !input.dodge_left,
                animator: self.animator.playing(self.states.dodge, QUICK_FRAME, false),
                action_dir: dir,
                dodge_timer: DODGE_DURATION,
                ..self
            }
        } else if input.punch_left || input.punch_right {
            let dir = if input.punch_left {
                ActionDirection::Left
            } else {
                ActionDirection::Right
            };
            Player {
                flip_x: !input.punch_left,
                animator: self.animator.playing(self.states.punch, PUNCH_FRAME, false),
                action_dir: dir,
                punch_timer: PUNCH_DURATION,
                ..self
            }
        } else {
            Player {
                animator: self.animator.playing(self.states.idle, SLOW_FRAME, true),
                dodge_timer: 0,
                ..self
            }
        }
    }

    /// The player after one frame per entry of `frames`, in order; an entry
    /// holds the enemy's punch timer, the input and the frame's length.
    pub open spec fn run(self, frames: Seq<(u64, PlayerInput, u64)>) -> Player
        decreases frames.len(),
    {
        if frames.len() == 0 {
            self
        } else {
            self.stepped(frames[0].0, frames[0].1, frames[0].2).run(frames.drop_first())
        }
    }

    /// A player at rest at `origin`, showing `animator`'s clip.
    pub fn new(origin: Point, animator: Animator, states: PlayerStates) -> (p: Player)
        requires
            origin.in_bounds(),
            animator.wf(),
            states.wf(),
        ensures
            p == (Player {
                dodge_timer: 0,
                action_dir: ActionDirection::Neutral,
                punch_timer: 0,
                states,
                blocking: false,
                origin,
                animator,
                is_hit_timer: 0,
                hits_taken_total: 0,
                translation: origin,
                flip_x: false,
            }),
            p.wf(),
    {
        Player {
            dodge_timer: 0,
            action_dir: ActionDirection::Neutral,
            punch_timer: 0,
            states,
            blocking: false,
            origin,
            animator,
            is_hit_timer: 0,
            hits_taken_total: 0,
            translation: origin,
            flip_x: false,
        }
    }

    fn decide(&mut self, input: &PlayerInput)
        requires
            old(self).wf(),
        ensures
            *final(self) == old(self).decided(*input),
    {
        if input.block {
            self.animator.play(self.states.block, QUICK_FRAME, false);
            self.blocking = true;
        } else if input.dodge_left {
            self.flip_x = false;
            self.animator.play(self.states.dodge, QUICK_FRAME, false);
            self.action_dir = ActionDirection::Left;
            self.dodge_timer = DODGE_DURATION;
        } else if input.dodge_right {
            self.flip_x = true;
            self.animator.play(self.states.dodge, QUICK_FRAME, false);
            self.action_dir = ActionDirection::Right;
            self.dodge_timer = DODGE_DURATION;
        } else if input.punch_left {
            self.flip_x = false;
            self.animator.play(self.states.punch, PUNCH_FRAME, false);
            self.action_dir = ActionDirection::Left;
            self.punch_timer = PUNCH_DURATION;
        } else if input.punch_right {
            self.flip_x = true;
            self.animator.play(self.states.punch, PUNCH_FRAME, false);
            self.action_dir = ActionDirection::Right;
            self.punch_timer = PUNCH_DURATION;
        } else {
            self.animator.play(self.states.idle, SLOW_FRAME, true);
            self.dodge_timer = 0;
        }
    }

    fn act(&mut self, input: &PlayerInput, delta: u64)
        requires
            old(self).wf(),
        ensures
            *final(self) == old(self).acted(*input, delta),
    {
        if self.dodge_timer == 0 && self.punch_timer == 0 && self.is_hit_timer == 0 {
            self.translation = self.origin;
            self.blocking = false;
            self.decide(input);
        } else if self.is_hit_timer > 0 {
            self.animator.set_indices(self.states.hit);
            self.animator.set_frametime(SLOW_FRAME);
            self.is_hit_timer = count_down(self.is_hit_timer, delta);
        } else if self.dodge_timer > 0 && self.punch_timer == 0 {
            self.blocking = false;
            let dx = signed_toward(
                self.action_dir,
                ease_complement(self.dodge_timer, DODGE_DURATION, DODGE_DISTANCE),
            );
            self.translation = self.origin.shift(dx, 0);
            self.dodge_timer = count_down(self.dodge_timer, delta);
        } else if self.punch_timer > 0 {
            let dx = -signed_toward(
                self.action_dir,
                ease_complement(self.punch_timer, PUNCH_DURATION, PUNCH_SWAY),
            );
            let dy = -(ease_share(self.punch_timer, PUNCH_DURATION, PUNCH_DIP) as i64);
            self.translation = self.origin.shift(dx, dy);
            self.punch_timer = count_down(self.punch_timer, delta);
        }
    }
}

/// Runs one frame of `delta` microseconds for the player, given the input read
/// this frame and the enemy's punch timer as it stood before the frame.
///
/// A defeated player only shows the death clip. Otherwise a live enemy strike
/// that is neither blocked nor dodged puts the player in hit-stun and ends the
/// frame's logic; else the player decides anew once every timer has run out,
/// or carries on with the action in progress. The animator then ticks.
pub fn update_player_movement(
    player: &mut Player,
    enemy_punch_timer: u64,
    input: &PlayerInput,
    delta: u64,
)
    requires
        old(player).wf(),
    ensures
        *final(player) == old(player).stepped(enemy_punch_timer, *input, delta),
        final(player).wf(),
{
    if player.hits_taken_total > MAX_HITS {
        player.animator.play(player.states.death, QUICK_FRAME, false);
        return;
    }
    if 0 < enemy_punch_timer && enemy_punch_timer < enemy::PUNCH_DURATION && !player.blocking
        && player.dodge_timer == 0 {
        player.animator.play(player.states.hit, QUICK_FRAME, false);
        player.is_hit_timer = IS_HIT_TIMER;
        player.punch_timer = 0;
        player.hits_taken_total = player.hits_taken_total + 1;
        player.animator.tick(delta);
        return;
    }
    player.act(input, delta);
    player.animator.tick(delta);
}

/// Once the player has taken more than `MAX_HITS` hits, every later frame,
/// whatever the input, the enemy and the frame lengths, leaves the player
/// showing the death clip, and defeated.
pub proof fn lemma_death_is_final(p: Player, frames: Seq<(u64, PlayerInput, u64)>)
    requires
        p.is_dead(),
        frames.len() > 0,
    ensures
        p.run(frames).animator.indices == p.states.death,
        p.run(frames).is_dead(),
        p.run(frames).states == p.states,
    decreases frames.len(),
{
    let next = p.stepped(frames[0].0, frames[0].1, frames[0].2);
    assert(p.run(frames) == next.run(frames.drop_first()));
    assert(next.animator.indices == p.states.death);
    if frames.len() > 1 {
        lemma_death_is_final(next, frames.drop_first());
    } else {
        assert(next.run(frames.drop_first()) == next);
    }
}

} // verus!
