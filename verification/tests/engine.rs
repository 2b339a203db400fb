//! Whole-engine scenarios: input-driven motion, shooting cadence, the
//! multi-hit enemy lifecycle, hero death by contact, and the score-driven
//! spawn curve.

use shmup_core::entity::bullet::Bullet;
use shmup_core::entity::enemy::{Enemy, Enemy1, Enemy2};
use shmup_core::entity::hero::Hero;
use shmup_core::entity::{EntityState, Vec2};
use shmup_core::game::{GameSettings, GameStates};
use shmup_core::input::{UserInputEvent, UserInputEventReciever};
use shmup_core::render::BitmapAsset;

/// Holding "d" for five ticks ramps the speed up by acceleration minus
/// friction; releasing decays it to exactly zero with no overshoot and no
/// sign flip.  Speeds are in deci-pixels (acceleration 4 px, friction 1.6 px).
#[test]
fn held_key_ramps_then_decays_to_zero() {
    let settings = GameSettings::new(100, 100);
    let mut hero = Hero::new(0, 0);
    hero.update(&UserInputEvent::new("d".to_string(), true));
    let ramp = [40, 64, 88, 112, 136];
    for expected in ramp {
        hero.tick(&settings);
        assert_eq!(hero.motion_state.speed.x, expected);
    }
    hero.update(&UserInputEvent::new("d".to_string(), false));
    let decay = [120, 104, 88, 72, 56, 40, 24, 8, 0];
    for expected in decay {
        hero.tick(&settings);
        assert_eq!(hero.motion_state.speed.x, expected);
        assert!(hero.motion_state.speed.x >= 0, "no sign flip");
    }
    // zero within ceil(136 / 16) = 9 ticks after release, and it stays zero
    hero.tick(&settings);
    assert_eq!(hero.motion_state.speed.x, 0);
    assert_eq!(hero.motion_state.pos.x, 952);
}

/// While the fire key is held, a bullet spawns exactly every 10 ticks,
/// starting at tick 0 — none on ticks 1 through 9.
#[test]
fn bullet_spawns_every_ten_ticks() {
    let settings = GameSettings::new(600, 600);
    let mut gs = GameStates::new();
    gs.update(&UserInputEvent::new(" ".to_string(), true));
    for i in 0..30usize {
        gs.tick(&settings);
        assert_eq!(gs.hero_bullets.len(), 1 + i / 10, "after tick {i}");
    }
}

/// A medium enemy (health 5) hit by one bullet per tick reaches health 0 on
/// the 5th hit, enters DieAnimating on the next tick, and is Died — retired
/// and scored — after its death animation: 4 frames at 2 ticks per frame.
#[test]
fn medium_enemy_dies_after_five_hits() {
    let settings = GameSettings::new(600, 600);
    let mut gs = GameStates::new();
    gs.enemies.push(Enemy::BigCup(Enemy2::new(5000, 5000)));
    for hit in 1..=5u16 {
        let (ex, ey) = match &gs.enemies[0] {
            Enemy::BigCup(e) => (e.motion_state.pos.x, e.motion_state.pos.y),
            _ => unreachable!(),
        };
        gs.hero_bullets.push(Bullet::new(ex, ey, 0, 0));
        gs.tick(&settings);
        match &gs.enemies[0] {
            Enemy::BigCup(e) => {
                assert_eq!(e.health, 5 - hit);
                assert_eq!(e.state, EntityState::HittedAnimating);
            },
            _ => unreachable!(),
        }
        assert!(gs.hero_bullets.is_empty(), "the bullet was consumed by the hit");
    }
    // next tick: health 0 is noticed, the enemy starts dying
    gs.tick(&settings);
    match &gs.enemies[0] {
        Enemy::BigCup(e) => assert_eq!(e.state, EntityState::DieAnimating),
        _ => unreachable!(),
    }
    // death animation: 4 frames x 2 ticks per frame = 8 ticks in all
    for _ in 0..6 {
        gs.tick(&settings);
        assert_eq!(gs.enemies.len(), 1);
    }
    assert_eq!(gs.score(), 0);
    gs.tick(&settings);
    assert_eq!(gs.enemies.len(), 0, "retired the tick the animation completes");
    assert_eq!(gs.score(), 5, "a medium enemy scores 5");
}

/// An enemy overlapping a Normal hero kills the hero that same tick, and no
/// input-driven motion happens from then on.
#[test]
fn contact_kills_hero_and_freezes_motion() {
    let settings = GameSettings::new(600, 600);
    let mut gs = GameStates::new();
    gs.enemies.push(Enemy::MiddleCup(Enemy1::new(0, 0)));
    gs.tick(&settings);
    assert_eq!(gs.hero.state, EntityState::DieAnimating);
    assert!(!gs.end());
    // held movement keys no longer move the dying hero
    gs.update(&UserInputEvent::new("d".to_string(), true));
    for _ in 0..7 {
        gs.tick(&settings);
        assert_eq!(gs.hero.state, EntityState::DieAnimating);
        assert_eq!(gs.hero.motion_state.pos, Vec2 { x: 0, y: 0 });
    }
    // death animation: 4 frames x 2 ticks per frame = 8 ticks in all
    gs.tick(&settings);
    assert_eq!(gs.hero.state, EntityState::Died);
    assert!(gs.end());
    // terminal: further ticks change nothing about the hero
    let pos = gs.hero.motion_state.pos;
    let cursor = gs.hero.die_animation.animation_tick.cur;
    for _ in 0..3 {
        gs.tick(&settings);
        assert_eq!(gs.hero.state, EntityState::Died);
        assert_eq!(gs.hero.motion_state.pos, pos);
        assert_eq!(gs.hero.die_animation.animation_tick.cur, cursor);
        assert_eq!(gs.hero.health, 100);
    }
}

/// At score 30 the enemy cap is min(max(30/3, 1), 10) = 10, so an empty arena
/// spawns a full batch of 3, all of the one tier picked by the single draw.
#[test]
fn spawn_batch_respects_cap_and_single_draw() {
    let settings = GameSettings::new(600, 600);
    let mut gs = GameStates::new();
    gs.score = 30;
    gs.tick(&settings);
    assert_eq!(gs.enemies.len(), 3, "up to 3 per tick toward the cap of 10");
    let first_is_light = matches!(&gs.enemies[0], Enemy::MiddleCup(_));
    for e in gs.enemies.iter() {
        // score 30 gives counters (4, 1, 0): the one draw picks the light
        // tier (draw < 4) or the medium tier (draw == 4), for the whole batch
        match e {
            Enemy::MiddleCup(_) => assert!(first_is_light),
            Enemy::BigCup(_) => assert!(!first_is_light),
            Enemy::SuperBigCup(_) => panic!("the heavy counter is 0 at score 30"),
        }
    }
    assert_eq!(gs.score(), 30, "spawning does not change the score");
}

/// A light enemy has one health point, no hit animation, and scores 1 when
/// retired dead.
#[test]
fn light_enemy_scores_one() {
    let settings = GameSettings::new(600, 600);
    let mut gs = GameStates::new();
    gs.enemies.push(Enemy::MiddleCup(Enemy1::new(5000, 5000)));
    let (ex, ey) = match &gs.enemies[0] {
        Enemy::MiddleCup(e) => (e.motion_state.pos.x, e.motion_state.pos.y),
        _ => unreachable!(),
    };
    gs.hero_bullets.push(Bullet::new(ex, ey, 0, 0));
    gs.tick(&settings);
    match &gs.enemies[0] {
        Enemy::MiddleCup(e) => {
            assert_eq!(e.health, 0);
            // the light tier has no hit animation: the state stays Normal
            assert_eq!(e.state, EntityState::Normal);
        },
        _ => unreachable!(),
    }
    gs.tick(&settings);
    match &gs.enemies[0] {
        Enemy::MiddleCup(e) => assert_eq!(e.state, EntityState::DieAnimating),
        _ => unreachable!(),
    }
    // death animation: 4 frames x 2 ticks per frame = 8 ticks in all
    for _ in 0..7 {
        gs.tick(&settings);
    }
    assert_eq!(gs.enemies.len(), 0);
    assert_eq!(gs.score(), 1, "a light enemy scores 1");
}

/// An enemy that scrolls to the bottom bound is removed without any score.
#[test]
fn enemy_past_bottom_is_removed_without_score() {
    let settings = GameSettings::new(600, 600);
    let mut gs = GameStates::new();
    // keep the spawner quiet for the whole run
    gs.spawn_cooldown = 100;
    // falling 30 per tick from 60, the enemy is clamped to 0 on tick 2
    gs.enemies.push(Enemy::MiddleCup(Enemy1::new(5000, 60)));
    gs.tick(&settings);
    assert_eq!(gs.enemies.len(), 1);
    gs.tick(&settings);
    assert_eq!(gs.enemies.len(), 0);
    assert_eq!(gs.score(), 0, "scrolling out scores nothing");
}

/// The score never decreases across ticks, whatever happens.
#[test]
fn score_is_monotone_across_ticks() {
    let settings = GameSettings::new(300, 300);
    let mut gs = GameStates::new();
    gs.update(&UserInputEvent::new(" ".to_string(), true));
    let mut last = gs.score();
    for _ in 0..200 {
        gs.tick(&settings);
        assert!(gs.score() >= last);
        last = gs.score();
    }
}

/// The render snapshot lists the hero first, then hero bullets, then enemies,
/// each at its position extrapolated by speed * elapsed / 50 ms.
#[test]
fn render_snapshot_order_and_extrapolation() {
    let mut gs = GameStates::new();
    gs.hero_bullets.push(Bullet::new(100, 200, 0, 80));
    gs.enemies.push(Enemy::MiddleCup(Enemy1::new(3000, 4000)));
    let prims = gs.render_primitives(25);
    assert_eq!(prims.len(), 3);
    assert_eq!(prims[0].bitmap, BitmapAsset::Hero1);
    assert_eq!(prims[0].position, (0, 0));
    assert_eq!(prims[1].bitmap, BitmapAsset::BulletPlayer);
    // 200 + 80 * 25 / 50 = 240
    assert_eq!(prims[1].position, (100, 240));
    assert_eq!(prims[2].bitmap, BitmapAsset::Enemy1);
    // speed (0, -30): 4000 - 30 * 25 / 50 = 3985
    assert_eq!(prims[2].position, (3000, 3985));
    assert_eq!(prims[2].rotate_angle, 0);
}

/// A bullet that leaves the vertical bounds is retired without any hit.
#[test]
fn stray_bullet_retires_at_the_top() {
    let settings = GameSettings::new(100, 100);
    let mut gs = GameStates::new();
    // keep the spawner quiet so no enemy crosses the bullet's path
    gs.spawn_cooldown = 100;
    // 12 ticks away from the top bound at 80 per tick
    gs.hero_bullets.push(Bullet::new(500, 40, 0, 80));
    for _ in 0..11 {
        gs.tick(&settings);
        assert_eq!(gs.hero_bullets.len(), 1);
    }
    gs.tick(&settings);
    assert_eq!(gs.hero_bullets.len(), 0, "clamped at the bound, then retired");
}
