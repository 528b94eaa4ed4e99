use brawler::motion::{ActionDirection, Point};
use brawler::player::{update_player_movement, Player, PlayerInput, PlayerStates};
use brawler::util::{AnimationIndices, AnimationTimer, Animator};

fn clip(first: usize, last: usize) -> AnimationIndices {
    AnimationIndices { first, last }
}

fn states() -> PlayerStates {
    PlayerStates {
        idle: clip(0, 1),
        punch: clip(2, 5),
        hit: clip(6, 7),
        block: clip(8, 9),
        dodge: clip(10, 11),
        death: clip(12, 13),
    }
}

const ORIGIN: Point = Point { x: 0, y: -80_000, z: 1_000 };

fn player() -> Player {
    let animator = Animator::new(AnimationTimer::new(250_000), clip(0, 1), true);
    Player::new(ORIGIN, animator, states())
}

fn no_input() -> PlayerInput {
    PlayerInput { block: false, dodge_left: false, dodge_right: false, punch_left: false, punch_right: false }
}

const FRAME: u64 = 16_667;

#[test]
fn new_player_rests_at_origin() {
    let p = player();
    assert_eq!(p.translation, ORIGIN);
    assert_eq!(p.dodge_timer, 0);
    assert_eq!(p.punch_timer, 0);
    assert_eq!(p.is_hit_timer, 0);
    assert_eq!(p.hits_taken_total, 0);
    assert!(!p.blocking);
    assert!(!p.flip_x);
}

#[test]
fn dodge_left_from_rest() {
    let mut p = player();
    let input = PlayerInput { dodge_left: true, ..no_input() };
    update_player_movement(&mut p, 0, &input, FRAME);
    assert_eq!(p.action_dir, ActionDirection::Left);
    assert_eq!(p.dodge_timer, 750_000);
    assert!(!p.flip_x);
    assert_eq!(p.animator.indices, clip(10, 11));
    assert_eq!(p.animator.timer.period, 100_000);
    assert!(!p.animator.loops);
    assert_eq!(p.translation, ORIGIN);
}

#[test]
fn dodge_right_flips_sprite() {
    let mut p = player();
    let input = PlayerInput { dodge_right: true, punch_left: true, ..no_input() };
    update_player_movement(&mut p, 0, &input, FRAME);
    assert_eq!(p.action_dir, ActionDirection::Right);
    assert_eq!(p.dodge_timer, 750_000);
    assert_eq!(p.punch_timer, 0);
    assert!(p.flip_x);
}

#[test]
fn block_has_priority_over_everything() {
    let mut p = player();
    let input = PlayerInput { block: true, dodge_left: true, dodge_right: true, punch_left: true, punch_right: true };
    update_player_movement(&mut p, 0, &input, FRAME);
    assert!(p.blocking);
    assert_eq!(p.animator.indices, clip(8, 9));
    assert_eq!(p.dodge_timer, 0);
    assert_eq!(p.punch_timer, 0);
    // releasing block clears it at the next decision
    update_player_movement(&mut p, 0, &no_input(), FRAME);
    assert!(!p.blocking);
    assert_eq!(p.animator.indices, clip(0, 1));
}

#[test]
fn punch_right_from_rest() {
    let mut p = player();
    let input = PlayerInput { punch_right: true, ..no_input() };
    update_player_movement(&mut p, 0, &input, FRAME);
    assert_eq!(p.action_dir, ActionDirection::Right);
    assert_eq!(p.punch_timer, 500_000);
    assert!(p.flip_x);
    assert_eq!(p.animator.indices, clip(2, 5));
    assert_eq!(p.animator.timer.period, 30_000);
}

#[test]
fn idle_without_input() {
    let mut p = player();
    update_player_movement(&mut p, 0, &no_input(), 300_000);
    assert_eq!(p.animator.indices, clip(0, 1));
    assert_eq!(p.animator.timer.period, 300_000);
    assert!(p.animator.loops);
    // the idle clip is the one already shown: it keeps its time and steps on
    assert_eq!(p.animator.index, 1);
    assert_eq!(p.animator.timer.elapsed, 0);
}

#[test]
fn dodge_eases_out_and_back() {
    let mut p = player();
    let input = PlayerInput { dodge_left: true, ..no_input() };
    update_player_movement(&mut p, 0, &input, 0);
    // first dodge frame: 0.75 s left, at the origin
    update_player_movement(&mut p, 0, &no_input(), 187_500);
    assert_eq!(p.translation, ORIGIN);
    assert_eq!(p.dodge_timer, 562_500);
    // a quarter in: (1 - (1/2)^4) * 75 px to the left
    update_player_movement(&mut p, 0, &no_input(), 187_500);
    assert_eq!(p.translation, Point { x: -70_312, ..ORIGIN });
    // half way: the full 75 px
    update_player_movement(&mut p, 0, &no_input(), 187_500);
    assert_eq!(p.translation, Point { x: -75_000, ..ORIGIN });
    assert_eq!(p.dodge_timer, 187_500);
}

#[test]
fn dodge_right_moves_right() {
    let mut p = player();
    let input = PlayerInput { dodge_right: true, ..no_input() };
    update_player_movement(&mut p, 0, &input, 0);
    update_player_movement(&mut p, 0, &no_input(), 375_000);
    update_player_movement(&mut p, 0, &no_input(), 0);
    assert_eq!(p.translation, Point { x: 75_000, ..ORIGIN });
}

#[test]
fn dodge_ends_back_at_origin() {
    let mut p = player();
    let input = PlayerInput { dodge_left: true, ..no_input() };
    update_player_movement(&mut p, 0, &input, 0);
    update_player_movement(&mut p, 0, &no_input(), 800_000);
    assert_eq!(p.dodge_timer, 0);
    update_player_movement(&mut p, 0, &no_input(), FRAME);
    assert_eq!(p.translation, ORIGIN);
    assert_eq!(p.animator.indices, clip(0, 1));
}

#[test]
fn punch_lunges_forward_and_down() {
    let mut p = player();
    let input = PlayerInput { punch_left: true, ..no_input() };
    update_player_movement(&mut p, 0, &input, 0);
    update_player_movement(&mut p, 0, &no_input(), 100_000);
    // start of the punch: x^4 = 1, so no sway and the full 15 px dip
    assert_eq!(p.translation, Point { x: 0, y: -95_000, z: 1_000 });
    assert_eq!(p.punch_timer, 400_000);
    update_player_movement(&mut p, 0, &no_input(), 100_000);
    // 0.1 s in: x^4 = 0.6^4 = 0.1296
    assert_eq!(p.translation, Point { x: 4_352, y: -81_944, z: 1_000 });
}

#[test]
fn live_enemy_strike_hits_player() {
    let mut p = player();
    update_player_movement(&mut p, 250_000, &no_input(), FRAME);
    assert_eq!(p.hits_taken_total, 1);
    assert_eq!(p.is_hit_timer, 100_000);
    assert_eq!(p.punch_timer, 0);
    assert_eq!(p.animator.indices, clip(6, 7));
    assert_eq!(p.animator.timer.period, 100_000);
    assert!(!p.animator.loops);
}

#[test]
fn hit_interrupts_punch() {
    let mut p = player();
    let input = PlayerInput { punch_left: true, ..no_input() };
    update_player_movement(&mut p, 0, &input, 0);
    update_player_movement(&mut p, 100_000, &no_input(), FRAME);
    assert_eq!(p.punch_timer, 0);
    assert_eq!(p.hits_taken_total, 1);
}

#[test]
fn enemy_timer_at_rest_or_winding_up_is_no_strike() {
    let mut p = player();
    update_player_movement(&mut p, 0, &no_input(), FRAME);
    update_player_movement(&mut p, 500_000, &no_input(), FRAME);
    update_player_movement(&mut p, 1_500_000, &no_input(), FRAME);
    assert_eq!(p.hits_taken_total, 0);
}

#[test]
fn blocking_player_is_not_hit() {
    let mut p = player();
    let input = PlayerInput { block: true, ..no_input() };
    update_player_movement(&mut p, 0, &input, FRAME);
    update_player_movement(&mut p, 250_000, &input, FRAME);
    assert_eq!(p.hits_taken_total, 0);
    assert!(p.blocking);
}

#[test]
fn dodging_player_is_not_hit() {
    let mut p = player();
    let input = PlayerInput { dodge_right: true, ..no_input() };
    update_player_movement(&mut p, 0, &input, FRAME);
    update_player_movement(&mut p, 250_000, &no_input(), FRAME);
    assert_eq!(p.hits_taken_total, 0);
    assert_eq!(p.dodge_timer, 750_000 - FRAME);
}

#[test]
fn hit_stun_runs_down_then_player_decides() {
    let mut p = player();
    update_player_movement(&mut p, 250_000, &no_input(), 0);
    assert_eq!(p.animator.timer.period, 100_000);
    update_player_movement(&mut p, 0, &no_input(), 60_000);
    // every hit-stun frame shows the hit pose at the slow frame time
    assert_eq!(p.is_hit_timer, 40_000);
    assert_eq!(p.animator.timer.period, 300_000);
    assert_eq!(p.animator.indices, clip(6, 7));
    update_player_movement(&mut p, 0, &no_input(), 60_000);
    assert_eq!(p.is_hit_timer, 0);
    assert_eq!(p.animator.timer.period, 300_000);
    assert_eq!(p.animator.indices, clip(6, 7));
    let input = PlayerInput { punch_right: true, ..no_input() };
    update_player_movement(&mut p, 0, &input, FRAME);
    assert_eq!(p.punch_timer, 500_000);
}

#[test]
fn sixteenth_hit_is_a_defeat() {
    let mut p = player();
    for _ in 0..16 {
        update_player_movement(&mut p, 250_000, &no_input(), FRAME);
    }
    assert_eq!(p.hits_taken_total, 16);
    update_player_movement(&mut p, 250_000, &no_input(), FRAME);
    assert_eq!(p.hits_taken_total, 16);
    assert_eq!(p.animator.indices, clip(12, 13));
    assert_eq!(p.animator.timer.period, 100_000);
    assert!(!p.animator.loops);
}

#[test]
fn death_clip_stays_whatever_happens() {
    let mut p = player();
    p.hits_taken_total = 16;
    let inputs = [
        PlayerInput { block: true, ..no_input() },
        PlayerInput { dodge_left: true, ..no_input() },
        PlayerInput { punch_right: true, ..no_input() },
        no_input(),
    ];
    for (i, input) in inputs.iter().enumerate() {
        let enemy_timer = if i % 2 == 0 { 250_000 } else { 0 };
        update_player_movement(&mut p, enemy_timer, input, 400_000);
        assert_eq!(p.animator.indices, clip(12, 13));
        assert_eq!(p.hits_taken_total, 16);
        assert_eq!(p.dodge_timer, 0);
        assert_eq!(p.punch_timer, 0);
        assert_eq!(p.translation, ORIGIN);
        // the death clip is not stepped
        assert_eq!(p.animator.index, 12);
    }
}
