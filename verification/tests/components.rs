//! Component-level checks: animation cadence, motion integration and
//! clamping, collision tests, input handling, difficulty curve, and the
//! render projection.

use shmup_core::animation::{AnimatedBitmap, AnimationTicker};
use shmup_core::entity::bullet::Bullet;
use shmup_core::entity::enemy::Enemy1;
use shmup_core::entity::hero::Hero;
use shmup_core::entity::{collisioned, EntityState, MotionState, Vec2};
use shmup_core::game::{get_gen_counts_by_score, get_total_cnt_by_score, GameSettings};
use shmup_core::input::{UserInputEvent, UserInputEventReciever};
use shmup_core::render::{bitmap_filename, BitmapAsset};

fn motion(px: i64, py: i64, sx: i64, sy: i64, acc_val: i64, friction: i64) -> MotionState {
    MotionState {
        pos: Vec2 { x: px, y: py },
        speed: Vec2 { x: sx, y: sy },
        acc: Vec2 { x: 0, y: 0 },
        acc_val,
        friction,
    }
}

#[test]
fn ticker_cycle_fires_once_per_full_cycle() {
    // 3 ticks per frame, 2 frames: the cycle completes every 6th tick.
    let mut t = AnimationTicker::new(3, 2);
    for k in 1..=24usize {
        let done = t.tick();
        assert_eq!(done, k % 6 == 0, "tick {k}");
        assert!(t.cur < 2);
        assert!(t.tick_cnt < 3);
    }
}

#[test]
fn animated_bitmap_advances_and_wraps() {
    let frames = vec![BitmapAsset::Enemy3N1, BitmapAsset::Enemy3N2];
    let mut a = AnimatedBitmap::new(frames, 3);
    assert_eq!(a.cur_bitmap(), BitmapAsset::Enemy3N1);
    assert!(!a.tick());
    assert!(!a.tick());
    assert_eq!(a.cur_bitmap(), BitmapAsset::Enemy3N1);
    assert!(!a.tick()); // third tick advances the cursor
    assert_eq!(a.cur_bitmap(), BitmapAsset::Enemy3N2);
    assert!(!a.tick());
    assert!(!a.tick());
    assert!(a.tick()); // sixth tick wraps: cycle complete
    assert_eq!(a.cur_bitmap(), BitmapAsset::Enemy3N1);
}

#[test]
fn motion_decay_reaches_zero_without_sign_flip() {
    // |speed| 50, friction 16: 34, 18, 2, 0 — zero within ceil(50/16) = 4.
    let settings = GameSettings::new(6000, 6000);
    let mut m = motion(30000, 30000, 50, -50, 0, 16);
    let expected = [(34, -34), (18, -18), (2, -2), (0, 0), (0, 0)];
    for (sx, sy) in expected {
        m.tick(&settings);
        assert_eq!(m.speed.x, sx);
        assert_eq!(m.speed.y, sy);
        assert!(m.speed.x >= 0 && m.speed.y <= 0);
    }
}

#[test]
fn motion_clamps_position_and_zeroes_speed() {
    let settings = GameSettings::new(100, 100);
    // driven past the right wall
    let mut m = motion(990, 500, 50, 0, 0, 0);
    m.tick(&settings);
    assert_eq!(m.pos.x, 1000);
    assert_eq!(m.speed.x, 0);
    // driven past the bottom wall
    let mut m = motion(5, 5, 0, -20, 0, 0);
    m.tick(&settings);
    assert_eq!(m.pos.y, 0);
    assert_eq!(m.speed.y, 0);
}

#[test]
fn collision_is_exact_at_the_threshold() {
    // bullet 50x110, light enemy 570x430 (deci-pixels): the x threshold is
    // (50 + 570) / 2 = 310.
    let e = Enemy1::new(1000, 1000);
    let at = Bullet::new(1000 + 310, 1000, 0, 0);
    let past = Bullet::new(1000 + 311, 1000, 0, 0);
    assert!(collisioned(&at, &e));
    assert!(!collisioned(&past, &e));
}

#[test]
fn collision_is_symmetric() {
    let e = Enemy1::new(1000, 1000);
    let pairs = [(1200, 1100), (1310, 1000), (1311, 1000), (9000, 9000)];
    for (x, y) in pairs {
        let b = Bullet::new(x, y, 0, 0);
        assert_eq!(collisioned(&b, &e), collisioned(&e, &b));
    }
}

#[test]
fn hero_update_sets_intent() {
    let mut h = Hero::new(0, 0);
    h.update(&UserInputEvent::new("w".to_string(), true));
    assert_eq!(h.motion_state.acc.y, 40);
    h.update(&UserInputEvent::new("w".to_string(), false));
    assert_eq!(h.motion_state.acc.y, 0);
    h.update(&UserInputEvent::new("a".to_string(), true));
    assert_eq!(h.motion_state.acc.x, -40);
    h.update(&UserInputEvent::new("d".to_string(), true));
    assert_eq!(h.motion_state.acc.x, 40);
    h.update(&UserInputEvent::new("s".to_string(), true));
    assert_eq!(h.motion_state.acc.y, -40);
    h.update(&UserInputEvent::new(" ".to_string(), true));
    assert!(h.shooting);
    h.update(&UserInputEvent::new(" ".to_string(), false));
    assert!(!h.shooting);
    // unrecognized keys are no-ops
    h.update(&UserInputEvent::new("q".to_string(), true));
    h.update(&UserInputEvent::new("dd".to_string(), true));
    assert_eq!(h.motion_state.acc.x, 40);
    assert_eq!(h.motion_state.acc.y, -40);
    assert!(!h.shooting);
}

#[test]
fn input_event_reports_its_key() {
    let e = UserInputEvent::new("d".to_string(), true);
    assert_eq!(e.key(), "d");
    assert!(e.pressed);
}

#[test]
fn total_count_follows_score() {
    assert_eq!(get_total_cnt_by_score(0), 1);
    assert_eq!(get_total_cnt_by_score(2), 1);
    assert_eq!(get_total_cnt_by_score(3), 1);
    assert_eq!(get_total_cnt_by_score(6), 2);
    assert_eq!(get_total_cnt_by_score(30), 10);
    assert_eq!(get_total_cnt_by_score(1000), 10);
}

#[test]
fn tier_counts_follow_nested_division() {
    // score 30: small0 = 10; middle = 10 / 6 = 1, small = 10 % 6 = 4;
    // big = 1 / 4 = 0, middle = 1 % 4 = 1; total = 5.
    assert_eq!(get_gen_counts_by_score(30), (4, 1, 0, 5));
    // score 0: every counter zero, total floored at 1.
    assert_eq!(get_gen_counts_by_score(0), (0, 0, 0, 1));
    // score 108: small0 = 36; middle = 6, small = 0; big = 6 / 4 = 1,
    // middle = 6 % 4 = 2; big capped at 2 stays 1; total = 3.
    assert_eq!(get_gen_counts_by_score(108), (0, 2, 1, 3));
}

#[test]
fn bitmap_filenames_match_assets() {
    assert_eq!(bitmap_filename(BitmapAsset::Hero1), "hero1.png");
    assert_eq!(bitmap_filename(BitmapAsset::BulletPlayer), "bullet_player.png");
    assert_eq!(bitmap_filename(BitmapAsset::Enemy3Down6), "enemy3_down6.png");
    assert_eq!(bitmap_filename(BitmapAsset::Enemy2Hit), "enemy2_hit.png");
}

#[test]
fn default_motion_state_is_at_rest() {
    let m = MotionState::default();
    assert_eq!(m.pos, Vec2 { x: 0, y: 0 });
    assert_eq!(m.speed, Vec2 { x: 0, y: 0 });
    assert_eq!(m.acc, Vec2 { x: 0, y: 0 });
    assert_eq!(m.acc_val, 0);
    assert_eq!(m.friction, 0);
}

#[test]
fn dead_enemy_ignores_ticks() {
    let settings = GameSettings::new(600, 600);
    let mut e = Enemy1::new(3000, 4000);
    e.health = 0;
    e.state = EntityState::Died;
    e.tick(&settings);
    assert_eq!(e.motion_state.pos, Vec2 { x: 3000, y: 4000 });
    assert_eq!(e.motion_state.speed, Vec2 { x: 0, y: -30 });
    assert_eq!(e.state, EntityState::Died);
    assert_eq!(e.die_animation.animation_tick.cur, 0);
    assert_eq!(e.health, 0);
}

#[test]
fn dead_hero_ignores_ticks() {
    let settings = GameSettings::new(100, 100);
    let mut h = Hero::new(500, 500);
    h.state = EntityState::Died;
    h.motion_state.speed = Vec2 { x: 30, y: 30 };
    h.tick(&settings);
    assert_eq!(h.motion_state.pos, Vec2 { x: 500, y: 500 });
    assert_eq!(h.state, EntityState::Died);
    assert_eq!(h.animation.animation_tick.cur, 0);
    assert_eq!(h.die_animation.animation_tick.cur, 0);
}
