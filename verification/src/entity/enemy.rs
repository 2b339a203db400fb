//! Enemies: three size/health tiers sharing one lifecycle.
//!
//! Every tier integrates motion until it is Died, then advances exactly one
//! animation according to its state.  A tier that survives hits re-enters
//! Normal when its hit animation completes; the death animation's completed
//! cycle makes the enemy Died, and from then on a tick changes nothing.  A
//! dying or dead enemy always has zero health.

use vstd::prelude::*;

use crate::animation::{AnimatedBitmap, AnimationTicker};
use crate::attribute::MotionAttribute;
use crate::entity::{CollisionBox, Entity, EntityState, MotionState, Vec2};
use crate::game::GameSettings;
use crate::render::{extrapolate, extrapolate_axis, BitmapAsset, Primitive, Render};

verus! {

/// The light tier: one health point, 57 by 43 pixels, falls 3 pixels a tick.
pub struct Enemy1 {
    pub health: u16,
    pub motion_state: MotionState,
    pub shooting_cooldown: u16,
    pub state: EntityState,
    pub normal_animation: AnimatedBitmap,
    pub die_animation: AnimatedBitmap,
}

/// The medium tier: five health points, 69 by 99 pixels, falls 2 pixels a
/// tick, shows a hit animation when it survives a hit.
pub struct Enemy2 {
    pub health: u16,
    pub motion_state: MotionState,
    pub shooting_cooldown: u16,
    pub state: EntityState,
    pub normal_animation: AnimatedBitmap,
    pub hitted_animation: AnimatedBitmap,
    pub die_animation: AnimatedBitmap,
}

/// The heavy tier: ten health points, 169 by 258 pixels, falls 1 pixel a
/// tick, shows a hit animation when it survives a hit.
pub struct Enemy3 {
    pub health: u16,
    pub motion_state: MotionState,
    pub shooting_cooldown: u16,
    pub state: EntityState,
    pub normal_animation: AnimatedBitmap,
    pub hitted_animation: AnimatedBitmap,
    pub die_animation: AnimatedBitmap,
}

/// An enemy of any tier.
pub enum Enemy {
    MiddleCup(Enemy1),
    BigCup(Enemy2),
    SuperBigCup(Enemy3),
}

/// The value `Enemy1::new(x, y)` constructs.
pub open spec fn is_fresh_enemy1(e: Enemy1, x: int, y: int) -> bool {
    &&& e.health == 1
    &&& e.motion_state == (MotionState {
        pos: (Vec2 { x: x as i64, y: y as i64 }),
        speed: (Vec2 { x: 0, y: -30i64 }),
        acc: (Vec2 { x: 0, y: 0 }),
        acc_val: 0,
        friction: 0,
    })
    &&& e.shooting_cooldown == 0
    &&& e.state == EntityState::Normal
    &&& e.normal_animation.bitmaps@ == seq![BitmapAsset::Enemy1]
    &&& e.normal_animation.animation_tick == (AnimationTicker {
        tick_per_frame: 3,
        tick_cnt: 0,
        total: 1,
        cur: 0,
    })
    &&& e.die_animation.bitmaps@ == seq![
        BitmapAsset::Enemy1Down1,
        BitmapAsset::Enemy1Down2,
        BitmapAsset::Enemy1Down3,
        BitmapAsset::Enemy1Down4,
    ]
    &&& e.die_animation.animation_tick == (AnimationTicker {
        tick_per_frame: 2,
        tick_cnt: 0,
        total: 4,
        cur: 0,
    })
}

/// The value `Enemy2::new(x, y)` constructs.
pub open spec fn is_fresh_enemy2(e: Enemy2, x: int, y: int) -> bool {
    &&& e.health == 5
    &&& e.motion_state == (MotionState {
        pos: (Vec2 { x: x as i64, y: y as i64 }),
        speed: (Vec2 { x: 0, y: -20i64 }),
        acc: (Vec2 { x: 0, y: 0 }),
        acc_val: 0,
        friction: 0,
    })
    &&& e.shooting_cooldown == 0
    &&& e.state == EntityState::Normal
    &&& e.normal_animation.bitmaps@ == seq![BitmapAsset::Enemy2]
    &&& e.normal_animation.animation_tick == (AnimationTicker {
        tick_per_frame: 3,
        tick_cnt: 0,
        total: 1,
        cur: 0,
    })
    &&& e.hitted_animation.bitmaps@ == seq![BitmapAsset::Enemy2Hit]
    &&& e.hitted_animation.animation_tick == (AnimationTicker {
        tick_per_frame: 3,
        tick_cnt: 0,
        total: 1,
        cur: 0,
    })
    &&& e.die_animation.bitmaps@ == seq![
        BitmapAsset::Enemy2Down1,
        BitmapAsset::Enemy2Down2,
        BitmapAsset::Enemy2Down3,
        BitmapAsset::Enemy2Down4,
    ]
    &&& e.die_animation.animation_tick == (AnimationTicker {
        tick_per_frame: 2,
        tick_cnt: 0,
        total: 4,
        cur: 0,
    })
}

/// The value `Enemy3::new(x, y)` constructs.
pub open spec fn is_fresh_enemy3(e: Enemy3, x: int, y: int) -> bool {
    &&& e.health == 10
    &&& e.motion_state == (MotionState {
        pos: (Vec2 { x: x as i64, y: y as i64 }),
        speed: (Vec2 { x: 0, y: -10i64 }),
        acc: (Vec2 { x: 0, y: 0 }),
        acc_val: 0,
        friction: 0,
    })
    &&& e.shooting_cooldown == 0
    &&& e.state == EntityState::Normal
    &&& e.normal_animation.bitmaps@ == seq![BitmapAsset::Enemy3N1, BitmapAsset::Enemy3N2]
    &&& e.normal_animation.animation_tick == (AnimationTicker {
        tick_per_frame: 3,
        tick_cnt: 0,
        total: 2,
        cur: 0,
    })
    &&& e.hitted_animation.bitmaps@ == seq![BitmapAsset::Enemy3Hit]
    &&& e.hitted_animation.animation_tick == (AnimationTicker {
        tick_per_frame: 3,
        tick_cnt: 0,
        total: 1,
        cur: 0,
    })
    &&& e.die_animation.bitmaps@ == seq![
        BitmapAsset::Enemy3Down1,
        BitmapAsset::Enemy3Down2,
        BitmapAsset::Enemy3Down3,
        BitmapAsset::Enemy3Down4,
        BitmapAsset::Enemy3Down5,
        BitmapAsset::Enemy3Down6,
    ]
    &&& e.die_animation.animation_tick == (AnimationTicker {
        tick_per_frame: 2,
        tick_cnt: 0,
        total: 6,
        cur: 0,
    })
}

impl Enemy1 {
    pub open spec fn wf(self) -> bool {
        &&& self.motion_state.wf()
        &&& self.normal_animation.wf()
        &&& self.die_animation.wf()
        &&& (self.state == EntityState::DieAnimating || self.state == EntityState::Died)
            ==> self.health == 0
    }

    /// Motion integrates unless the enemy is Died; then the animation of the
    /// current state advances, and a completed death cycle makes the enemy
    /// Died.
    pub open spec fn ticked(self, settings: GameSettings) -> Self {
        let moved = if self.state == EntityState::Died {
            self
        } else {
            Enemy1 { motion_state: self.motion_state.ticked(settings), ..self }
        };
        match self.state {
            EntityState::Normal => Enemy1 { normal_animation: moved.normal_animation.ticked(), ..moved },
            EntityState::DieAnimating => Enemy1 {
                die_animation: moved.die_animation.ticked(),
                state: if moved.die_animation.cycle_done() {
                    EntityState::Died
                } else {
                    EntityState::DieAnimating
                },
                ..moved
            },
            _ => moved,
        }
    }

    pub fn new(x: i64, y: i64) -> (r: Self)
        requires
            0 <= x <= crate::entity::POS_LIMIT,
            0 <= y <= crate::entity::POS_LIMIT,
        ensures
            is_fresh_enemy1(r, x as int, y as int),
            r.wf(),
    {
        let mut normal_frames: Vec<BitmapAsset> = Vec::new();
        normal_frames.push(BitmapAsset::Enemy1);
        let mut die_frames: Vec<BitmapAsset> = Vec::new();
        die_frames.push(BitmapAsset::Enemy1Down1);
        die_frames.push(BitmapAsset::Enemy1Down2);
        die_frames.push(BitmapAsset::Enemy1Down3);
        die_frames.push(BitmapAsset::Enemy1Down4);
        let r = Self {
            health: 1,
            motion_state: MotionState {
                pos: Vec2 { x, y },
                speed: Vec2 { x: 0, y: -30 },
                acc: Vec2 { x: 0, y: 0 },
                acc_val: 0,
                friction: 0,
            },
            shooting_cooldown: 0,
            state: EntityState::Normal,
            normal_animation: AnimatedBitmap::new(normal_frames, 3),
            die_animation: AnimatedBitmap::new(die_frames, 2),
        };
        proof {
            assert(r.normal_animation.bitmaps@ == seq![BitmapAsset::Enemy1]);
            assert(r.die_animation.bitmaps@ == seq![
                BitmapAsset::Enemy1Down1,
                BitmapAsset::Enemy1Down2,
                BitmapAsset::Enemy1Down3,
                BitmapAsset::Enemy1Down4,
            ]);
        }
        r
    }

    pub fn tick(&mut self, settings: &GameSettings)
        requires
            old(self).wf(),
        ensures
            *final(self) == old(self).ticked(*settings),
            final(self).wf(),
    {
        if self.state != EntityState::Died {
            self.motion_state.tick(settings);
        }
        match self.state {
            EntityState::Normal => {
                self.normal_animation.tick();
            },
            EntityState::DieAnimating => {
                if self.die_animation.tick() {
                    self.state = EntityState::Died;
                }
            },
            _ => {},
        }
    }
}

impl Enemy2 {
    pub open spec fn wf(self) -> bool {
        &&& self.motion_state.wf()
        &&& self.normal_animation.wf()
        &&& self.hitted_animation.wf()
        &&& self.die_animation.wf()
        &&& (self.state == EntityState::DieAnimating || self.state == EntityState::Died)
            ==> self.health == 0
    }

    /// Motion integrates unless the enemy is Died; then the animation of the
    /// current state advances: a completed hit cycle re-enters Normal, a
    /// completed death cycle makes the enemy Died.
    pub open spec fn ticked(self, settings: GameSettings) -> Self {
        let moved = if self.state == EntityState::Died {
            self
        } else {
            Enemy2 { motion_state: self.motion_state.ticked(settings), ..self }
        };
        match self.state {
            EntityState::Normal => Enemy2 { normal_animation: moved.normal_animation.ticked(), ..moved },
            EntityState::HittedAnimating => Enemy2 {
                hitted_animation: moved.hitted_animation.ticked(),
                state: if moved.hitted_animation.cycle_done() {
                    EntityState::Normal
                } else {
                    EntityState::HittedAnimating
                },
                ..moved
            },
            EntityState::DieAnimating => Enemy2 {
                die_animation: moved.die_animation.ticked(),
                state: if moved.die_animation.cycle_done() {
                    EntityState::Died
                } else {
                    EntityState::DieAnimating
                },
                ..moved
            },
            _ => moved,
        }
    }

    pub fn new(x: i64, y: i64) -> (r: Self)
        requires
            0 <= x <= crate::entity::POS_LIMIT,
            0 <= y <= crate::entity::POS_LIMIT,
        ensures
            is_fresh_enemy2(r, x as int, y as int),
            r.wf(),
    {
        let mut normal_frames: Vec<BitmapAsset> = Vec::new();
        normal_frames.push(BitmapAsset::Enemy2);
        let mut hit_frames: Vec<BitmapAsset> = Vec::new();
        hit_frames.push(BitmapAsset::Enemy2Hit);
        let mut die_frames: Vec<BitmapAsset> = Vec::new();
        die_frames.push(BitmapAsset::Enemy2Down1);
        die_frames.push(BitmapAsset::Enemy2Down2);
        die_frames.push(BitmapAsset::Enemy2Down3);
        die_frames.push(BitmapAsset::Enemy2Down4);
        let r = Self {
            health: 5,
            motion_state: MotionState {
                pos: Vec2 { x, y },
                speed: Vec2 { x: 0, y: -20 },
                acc: Vec2 { x: 0, y: 0 },
                acc_val: 0,
                friction: 0,
            },
            shooting_cooldown: 0,
            state: EntityState::Normal,
            normal_animation: AnimatedBitmap::new(normal_frames, 3),
            hitted_animation: AnimatedBitmap::new(hit_frames, 3),
            die_animation: AnimatedBitmap::new(die_frames, 2),
        };
        proof {
            assert(r.normal_animation.bitmaps@ == seq![BitmapAsset::Enemy2]);
            assert(r.hitted_animation.bitmaps@ == seq![BitmapAsset::Enemy2Hit]);
            assert(r.die_animation.bitmaps@ == seq![
                BitmapAsset::Enemy2Down1,
                BitmapAsset::Enemy2Down2,
                BitmapAsset::Enemy2Down3,
                BitmapAsset::Enemy2Down4,
            ]);
        }
        r
    }

    pub fn tick(&mut self, settings: &GameSettings)
        requires
            old(self).wf(),
        ensures
            *final(self) == old(self).ticked(*settings),
            final(self).wf(),
    {
        if self.state != EntityState::Died {
            self.motion_state.tick(settings);
        }
        match self.state {
            EntityState::Normal => {
                self.normal_animation.tick();
            },
            EntityState::HittedAnimating => {
                if self.hitted_animation.tick() {
                    self.state = EntityState::Normal;
                }
            },
            EntityState::DieAnimating => {
                if self.die_animation.tick() {
                    self.state = EntityState::Died;
                }
            },
            _ => {},
        }
    }
}

impl Enemy3 {
    pub open spec fn wf(self) -> bool {
        &&& self.motion_state.wf()
        &&& self.normal_animation.wf()
        &&& self.hitted_animation.wf()
        &&& self.die_animation.wf()
        &&& (self.state == EntityState::DieAnimating || self.state == EntityState::Died)
            ==> self.health == 0
    }

    /// Motion integrates unless the enemy is Died; then the animation of the
    /// current state advances: a completed hit cycle re-enters Normal, a
    /// completed death cycle makes the enemy Died.
    pub open spec fn ticked(self, settings: GameSettings) -> Self {
        let moved = if self.state == EntityState::Died {
            self
        } else {
            Enemy3 { motion_state: self.motion_state.ticked(settings), ..self }
        };
        match self.state {
            EntityState::Normal => Enemy3 { normal_animation: moved.normal_animation.ticked(), ..moved },
            EntityState::HittedAnimating => Enemy3 {
                hitted_animation: moved.hitted_animation.ticked(),
                state: if moved.hitted_animation.cycle_done() {
                    EntityState::Normal
                } else {
                    EntityState::HittedAnimating
                },
                ..moved
            },
            EntityState::DieAnimating => Enemy3 {
                die_animation: moved.die_animation.ticked(),
                state: if moved.die_animation.cycle_done() {
                    EntityState::Died
                } else {
                    EntityState::DieAnimating
                },
                ..moved
            },
            _ => moved,
        }
    }

    pub fn new(x: i64, y: i64) -> (r: Self)
        requires
            0 <= x <= crate::entity::POS_LIMIT,
            0 <= y <= crate::entity::POS_LIMIT,
        ensures
            is_fresh_enemy3(r, x as int, y as int),
            r.wf(),
    {
        let mut normal_frames: Vec<BitmapAsset> = Vec::new();
        normal_frames.push(BitmapAsset::Enemy3N1);
        normal_frames.push(BitmapAsset::Enemy3N2);
        let mut hit_frames: Vec<BitmapAsset> = Vec::new();
        hit_frames.push(BitmapAsset::Enemy3Hit);
        let mut die_frames: Vec<BitmapAsset> = Vec::new();
        die_frames.push(BitmapAsset::Enemy3Down1);
        die_frames.push(BitmapAsset::Enemy3Down2);
        die_frames.push(BitmapAsset::Enemy3Down3);
        die_frames.push(BitmapAsset::Enemy3Down4);
        die_frames.push(BitmapAsset::Enemy3Down5);
        die_frames.push(BitmapAsset::Enemy3Down6);
        let r = Self {
            health: 10,
            motion_state: MotionState {
                pos: Vec2 { x, y },
                speed: Vec2 { x: 0, y: -10 },
                acc: Vec2 { x: 0, y: 0 },
                acc_val: 0,
                friction: 0,
            },
            shooting_cooldown: 0,
            state: EntityState::Normal,
            normal_animation: AnimatedBitmap::new(normal_frames, 3),
            hitted_animation: AnimatedBitmap::new(hit_frames, 3),
            die_animation: AnimatedBitmap::new(die_frames, 2),
        };
        proof {
            assert(r.normal_animation.bitmaps@ == seq![BitmapAsset::Enemy3N1, BitmapAsset::Enemy3N2]);
            assert(r.hitted_animation.bitmaps@ == seq![BitmapAsset::Enemy3Hit]);
            assert(r.die_animation.bitmaps@ == seq![
                BitmapAsset::Enemy3Down1,
                BitmapAsset::Enemy3Down2,
                BitmapAsset::Enemy3Down3,
                BitmapAsset::Enemy3Down4,
                BitmapAsset::Enemy3Down5,
                BitmapAsset::Enemy3Down6,
            ]);
        }
        r
    }

    pub fn tick(&mut self, settings: &GameSettings)
        requires
            old(self).wf(),
        ensures
            *final(self) == old(self).ticked(*settings),
            final(self).wf(),
    {
        if self.state != EntityState::Died {
            self.motion_state.tick(settings);
        }
        match self.state {
            EntityState::Normal => {
                self.normal_animation.tick();
            },
            EntityState::HittedAnimating => {
                if self.hitted_animation.tick() {
                    self.state = EntityState::Normal;
                }
            },
            EntityState::DieAnimating => {
                if self.die_animation.tick() {
                    self.state = EntityState::Died;
                }
            },
            _ => {},
        }
    }
}

impl Enemy {
    pub open spec fn wf(self) -> bool {
        match self {
            Enemy::MiddleCup(e) => e.wf(),
            Enemy::BigCup(e) => e.wf(),
            Enemy::SuperBigCup(e) => e.wf(),
        }
    }

    pub open spec fn state(self) -> EntityState {
        match self {
            Enemy::MiddleCup(e) => e.state,
            Enemy::BigCup(e) => e.state,
            Enemy::SuperBigCup(e) => e.state,
        }
    }

    pub open spec fn health(self) -> u16 {
        match self {
            Enemy::MiddleCup(e) => e.health,
            Enemy::BigCup(e) => e.health,
            Enemy::SuperBigCup(e) => e.health,
        }
    }

    pub open spec fn motion(self) -> MotionState {
        match self {
            Enemy::MiddleCup(e) => e.motion_state,
            Enemy::BigCup(e) => e.motion_state,
            Enemy::SuperBigCup(e) => e.motion_state,
        }
    }

    /// The points awarded when this enemy is retired dead.
    pub open spec fn score_value(self) -> u32 {
        match self {
            Enemy::MiddleCup(_) => 1u32,
            Enemy::BigCup(_) => 5u32,
            Enemy::SuperBigCup(_) => 10u32,
        }
    }

    pub open spec fn ticked(self, settings: GameSettings) -> Self {
        match self {
            Enemy::MiddleCup(e) => Enemy::MiddleCup(e.ticked(settings)),
            Enemy::BigCup(e) => Enemy::BigCup(e.ticked(settings)),
            Enemy::SuperBigCup(e) => Enemy::SuperBigCup(e.ticked(settings)),
        }
    }

    /// The enemy with its death transition applied: an enemy out of health
    /// that is not already dying or dead enters DieAnimating.  Died is
    /// terminal: a dead enemy is never re-animated.
    pub open spec fn die_flagged(self) -> Self {
        if self.health() == 0 && self.state() != EntityState::DieAnimating && self.state()
            != EntityState::Died {
            match self {
                Enemy::MiddleCup(e) => Enemy::MiddleCup(
                    Enemy1 { state: EntityState::DieAnimating, ..e },
                ),
                Enemy::BigCup(e) => Enemy::BigCup(Enemy2 { state: EntityState::DieAnimating, ..e }),
                Enemy::SuperBigCup(e) => Enemy::SuperBigCup(
                    Enemy3 { state: EntityState::DieAnimating, ..e },
                ),
            }
        } else {
            self
        }
    }

    /// The enemy after taking one bullet: health drops by one (floored at
    /// zero); tiers that survive hits enter HittedAnimating.
    pub open spec fn hit_applied(self) -> Self {
        match self {
            Enemy::MiddleCup(e) => Enemy::MiddleCup(
                Enemy1 { health: if e.health > 0 { (e.health - 1) as u16 } else { 0 }, ..e },
            ),
            Enemy::BigCup(e) => Enemy::BigCup(
                Enemy2 {
                    health: if e.health > 0 { (e.health - 1) as u16 } else { 0 },
                    state: EntityState::HittedAnimating,
                    ..e
                },
            ),
            Enemy::SuperBigCup(e) => Enemy::SuperBigCup(
                Enemy3 {
                    health: if e.health > 0 { (e.health - 1) as u16 } else { 0 },
                    state: EntityState::HittedAnimating,
                    ..e
                },
            ),
        }
    }

    /// Whether a bullet may still hit this enemy: dying and dead enemies are
    /// skipped, so they cannot be hit or scored twice.
    pub open spec fn hittable(self) -> bool {
        self.state() != EntityState::DieAnimating && self.state() != EntityState::Died
    }

    pub fn tick(&mut self, settings: &GameSettings)
        requires
            old(self).wf(),
        ensures
            *final(self) == old(self).ticked(*settings),
            final(self).wf(),
    {
        match self {
            Enemy::MiddleCup(e) => e.tick(settings),
            Enemy::BigCup(e) => e.tick(settings),
            Enemy::SuperBigCup(e) => e.tick(settings),
        }
    }

    /// Apply the death transition: an enemy out of health and not already
    /// dying enters DieAnimating.
    pub fn die_flag(&mut self)
        requires
            old(self).wf(),
        ensures
            *final(self) == old(self).die_flagged(),
            final(self).wf(),
    {
        match self {
            Enemy::MiddleCup(e) => {
                if e.health == 0 && e.state != EntityState::DieAnimating && e.state
                    != EntityState::Died {
                    e.state = EntityState::DieAnimating;
                }
            },
            Enemy::BigCup(e) => {
                if e.health == 0 && e.state != EntityState::DieAnimating && e.state
                    != EntityState::Died {
                    e.state = EntityState::DieAnimating;
                }
            },
            Enemy::SuperBigCup(e) => {
                if e.health == 0 && e.state != EntityState::DieAnimating && e.state
                    != EntityState::Died {
                    e.state = EntityState::DieAnimating;
                }
            },
        }
    }

    /// Take one bullet: health drops by one (floored at zero); tiers that
    /// survive hits enter HittedAnimating.
    pub fn apply_hit(&mut self)
        requires
            old(self).wf(),
        ensures
            *final(self) == old(self).hit_applied(),
            final(self).wf(),
    {
        match self {
            Enemy::MiddleCup(e) => {
                if e.health > 0 {
                    e.health = e.health - 1;
                }
            },
            Enemy::BigCup(e) => {
                e.state = EntityState::HittedAnimating;
                if e.health > 0 {
                    e.health = e.health - 1;
                }
            },
            Enemy::SuperBigCup(e) => {
                e.state = EntityState::HittedAnimating;
                if e.health > 0 {
                    e.health = e.health - 1;
                }
            },
        }
    }

    pub fn is_hittable(&self) -> (r: bool)
        ensures
            r == self.hittable(),
    {
        match self {
            Enemy::MiddleCup(e) => e.state != EntityState::DieAnimating && e.state
                != EntityState::Died,
            Enemy::BigCup(e) => e.state != EntityState::DieAnimating && e.state
                != EntityState::Died,
            Enemy::SuperBigCup(e) => e.state != EntityState::DieAnimating && e.state
                != EntityState::Died,
        }
    }

    pub fn health_of(&self) -> (r: u16)
        ensures
            r == self.health(),
    {
        match self {
            Enemy::MiddleCup(e) => e.health,
            Enemy::BigCup(e) => e.health,
            Enemy::SuperBigCup(e) => e.health,
        }
    }

    pub fn state_of(&self) -> (r: EntityState)
        ensures
            r == self.state(),
    {
        match self {
            Enemy::MiddleCup(e) => e.state,
            Enemy::BigCup(e) => e.state,
            Enemy::SuperBigCup(e) => e.state,
        }
    }

    pub fn pos_y_of(&self) -> (r: i64)
        ensures
            r == self.motion().pos.y,
    {
        match self {
            Enemy::MiddleCup(e) => e.motion_state.pos.y,
            Enemy::BigCup(e) => e.motion_state.pos.y,
            Enemy::SuperBigCup(e) => e.motion_state.pos.y,
        }
    }

    /// The points this enemy's tier is worth when retired dead.
    pub fn score_points(&self) -> (r: u32)
        ensures
            r == self.score_value(),
    {
        match self {
            Enemy::MiddleCup(_) => 1,
            Enemy::BigCup(_) => 5,
            Enemy::SuperBigCup(_) => 10,
        }
    }
}

/// Terminality at the entity level: once an enemy is Died, neither a tick
/// nor the death flag changes anything — not its position, health, lifecycle
/// state, or any animation cursor.  (The engine's retirement pass removes a
/// dead enemy in the very tick it dies, so inside the engine no dead enemy
/// even receives a tick.)
pub proof fn lemma_dead_enemy_tick(e: Enemy, settings: GameSettings)
    requires
        e.state() == EntityState::Died,
    ensures
        e.ticked(settings) == e,
        e.die_flagged() == e,
{
}

/// The medium tier after `n` ticks under fixed settings.
pub open spec fn enemy2_iterated(e: Enemy2, settings: GameSettings, n: nat) -> Enemy2
    decreases n,
{
    if n == 0 {
        e
    } else {
        enemy2_iterated(e, settings, (n - 1) as nat).ticked(settings)
    }
}

/// The death countdown of the medium tier: an enemy that has just started
/// dying (death animation at its first frame) keeps its health and its other
/// animations, stays DieAnimating while the death animation plays, and is
/// Died exactly after `frames * ticks_per_frame` ticks — neither earlier nor
/// later.  (Its motion still integrates while it dies.)
pub proof fn lemma_dying_enemy2_countdown(e: Enemy2, settings: GameSettings, n: nat)
    requires
        e.state == EntityState::DieAnimating,
        e.die_animation.animation_tick.wf(),
        e.die_animation.animation_tick.tick_cnt == 0,
        e.die_animation.animation_tick.cur == 0,
        n <= e.die_animation.animation_tick.tick_per_frame
            * e.die_animation.animation_tick.total,
    ensures
        ({
            let en = enemy2_iterated(e, settings, n);
            let t0 = e.die_animation.animation_tick;
            &&& en.health == e.health
            &&& en.normal_animation == e.normal_animation
            &&& en.hitted_animation == e.hitted_animation
            &&& en.die_animation.bitmaps == e.die_animation.bitmaps
            &&& en.die_animation.animation_tick == crate::animation::ticker_iterated(t0, n)
            &&& n < t0.tick_per_frame * t0.total ==> en.state == EntityState::DieAnimating
            &&& n == t0.tick_per_frame * t0.total ==> en.state == EntityState::Died
        }),
    decreases n,
{
    let t0 = e.die_animation.animation_tick;
    let tpf = t0.tick_per_frame;
    let total = t0.total;
    assert(tpf * total >= 1) by (nonlinear_arith)
        requires
            1 <= tpf && 1 <= total,
    ;
    if n > 0 {
        lemma_dying_enemy2_countdown(e, settings, (n - 1) as nat);
        crate::animation::lemma_animation_cycle(tpf, total, n);
        if n < tpf * total {
            vstd::arithmetic::div_mod::lemma_small_mod(n, (tpf * total) as nat);
        } else {
            vstd::arithmetic::div_mod::lemma_mod_self_0(tpf as int * total as int);
        }
    }
}

impl CollisionBox for Enemy1 {
    open spec fn spec_bounding_box(&self) -> (int, int, int, int) {
        (self.motion_state.pos.x as int, self.motion_state.pos.y as int, 570, 430)
    }

    fn bounding_box(&self) -> (r: (i64, i64, i64, i64)) {
        (self.motion_state.pos.x, self.motion_state.pos.y, 570, 430)
    }
}

impl CollisionBox for Enemy2 {
    open spec fn spec_bounding_box(&self) -> (int, int, int, int) {
        (self.motion_state.pos.x as int, self.motion_state.pos.y as int, 690, 990)
    }

    fn bounding_box(&self) -> (r: (i64, i64, i64, i64)) {
        (self.motion_state.pos.x, self.motion_state.pos.y, 690, 990)
    }
}

impl CollisionBox for Enemy3 {
    open spec fn spec_bounding_box(&self) -> (int, int, int, int) {
        (self.motion_state.pos.x as int, self.motion_state.pos.y as int, 1690, 2580)
    }

    fn bounding_box(&self) -> (r: (i64, i64, i64, i64)) {
        (self.motion_state.pos.x, self.motion_state.pos.y, 1690, 2580)
    }
}

impl CollisionBox for Enemy {
    open spec fn spec_bounding_box(&self) -> (int, int, int, int) {
        match self {
            Enemy::MiddleCup(e) => e.spec_bounding_box(),
            Enemy::BigCup(e) => e.spec_bounding_box(),
            Enemy::SuperBigCup(e) => e.spec_bounding_box(),
        }
    }

    fn bounding_box(&self) -> (r: (i64, i64, i64, i64)) {
        match self {
            Enemy::MiddleCup(e) => e.bounding_box(),
            Enemy::BigCup(e) => e.bounding_box(),
            Enemy::SuperBigCup(e) => e.bounding_box(),
        }
    }
}

impl Entity for Enemy1 {
    open spec fn spec_motion_attribute(&self) -> MotionAttribute {
        MotionAttribute::UniformSpeed { speed: 20 }
    }

    fn motion_attribute(&self) -> (r: MotionAttribute) {
        MotionAttribute::UniformSpeed { speed: 20 }
    }
}

impl Entity for Enemy2 {
    open spec fn spec_motion_attribute(&self) -> MotionAttribute {
        MotionAttribute::UniformSpeed { speed: 20 }
    }

    fn motion_attribute(&self) -> (r: MotionAttribute) {
        MotionAttribute::UniformSpeed { speed: 20 }
    }
}

impl Entity for Enemy3 {
    open spec fn spec_motion_attribute(&self) -> MotionAttribute {
        MotionAttribute::UniformSpeed { speed: 20 }
    }

    fn motion_attribute(&self) -> (r: MotionAttribute) {
        MotionAttribute::UniformSpeed { speed: 20 }
    }
}

impl Render for Enemy1 {
    open spec fn render_wf(&self) -> bool {
        self.wf()
    }

    open spec fn rendered(&self, ms_delta: int) -> Primitive {
        Primitive {
            bitmap: match self.state {
                EntityState::Normal => self.normal_animation.spec_cur_bitmap(),
                EntityState::DieAnimating => self.die_animation.spec_cur_bitmap(),
                _ => self.normal_animation.spec_cur_bitmap(),
            },
            position: (
                extrapolate(
                    self.motion_state.pos.x as int,
                    self.motion_state.speed.x as int,
                    ms_delta,
                ) as i64,
                extrapolate(
                    self.motion_state.pos.y as int,
                    self.motion_state.speed.y as int,
                    ms_delta,
                ) as i64,
            ),
            rotate_angle: 0,
        }
    }

    fn render(&self, ms_delta: u32) -> (r: Primitive) {
        let px = extrapolate_axis(self.motion_state.pos.x, self.motion_state.speed.x, ms_delta);
        let py = extrapolate_axis(self.motion_state.pos.y, self.motion_state.speed.y, ms_delta);
        let bitmap = match self.state {
            EntityState::Normal => self.normal_animation.cur_bitmap(),
            EntityState::DieAnimating => self.die_animation.cur_bitmap(),
            _ => self.normal_animation.cur_bitmap(),
        };
        Primitive::new(bitmap, (px, py), 0)
    }
}

impl Render for Enemy2 {
    open spec fn render_wf(&self) -> bool {
        self.wf()
    }

    open spec fn rendered(&self, ms_delta: int) -> Primitive {
        Primitive {
            bitmap: match self.state {
                EntityState::Normal => self.normal_animation.spec_cur_bitmap(),
                EntityState::HittedAnimating => self.hitted_animation.spec_cur_bitmap(),
                EntityState::DieAnimating => self.die_animation.spec_cur_bitmap(),
                _ => self.normal_animation.spec_cur_bitmap(),
            },
            position: (
                extrapolate(
                    self.motion_state.pos.x as int,
                    self.motion_state.speed.x as int,
                    ms_delta,
                ) as i64,
                extrapolate(
                    self.motion_state.pos.y as int,
                    self.motion_state.speed.y as int,
                    ms_delta,
                ) as i64,
            ),
            rotate_angle: 0,
        }
    }

    fn render(&self, ms_delta: u32) -> (r: Primitive) {
        let px = extrapolate_axis(self.motion_state.pos.x, self.motion_state.speed.x, ms_delta);
        let py = extrapolate_axis(self.motion_state.pos.y, self.motion_state.speed.y, ms_delta);
        let bitmap = match self.state {
            EntityState::Normal => self.normal_animation.cur_bitmap(),
            EntityState::HittedAnimating => self.hitted_animation.cur_bitmap(),
            EntityState::DieAnimating => self.die_animation.cur_bitmap(),
            _ => self.normal_animation.cur_bitmap(),
        };
        Primitive::new(bitmap, (px, py), 0)
    }
}

impl Render for Enemy3 {
    open spec fn render_wf(&self) -> bool {
        self.wf()
    }

    open spec fn rendered(&self, ms_delta: int) -> Primitive {
        Primitive {
            bitmap: match self.state {
                EntityState::Normal => self.normal_animation.spec_cur_bitmap(),
                EntityState::HittedAnimating => self.hitted_animation.spec_cur_bitmap(),
                EntityState::DieAnimating => self.die_animation.spec_cur_bitmap(),
                _ => self.normal_animation.spec_cur_bitmap(),
            },
            position: (
                extrapolate(
                    self.motion_state.pos.x as int,
                    self.motion_state.speed.x as int,
                    ms_delta,
                ) as i64,
                extrapolate(
                    self.motion_state.pos.y as int,
                    self.motion_state.speed.y as int,
                    ms_delta,
                ) as i64,
            ),
            rotate_angle: 0,
        }
    }

    fn render(&self, ms_delta: u32) -> (r: Primitive) {
        let px = extrapolate_axis(self.motion_state.pos.x, self.motion_state.speed.x, ms_delta);
        let py = extrapolate_axis(self.motion_state.pos.y, self.motion_state.speed.y, ms_delta);
        let bitmap = match self.state {
            EntityState::Normal => self.normal_animation.cur_bitmap(),
            EntityState::HittedAnimating => self.hitted_animation.cur_bitmap(),
            EntityState::DieAnimating => self.die_animation.cur_bitmap(),
            _ => self.normal_animation.cur_bitmap(),
        };
        Primitive::new(bitmap, (px, py), 0)
    }
}

impl Render for Enemy {
    open spec fn render_wf(&self) -> bool {
        self.wf()
    }

    open spec fn rendered(&self, ms_delta: int) -> Primitive {
        match self {
            Enemy::MiddleCup(e) => e.rendered(ms_delta),
            Enemy::BigCup(e) => e.rendered(ms_delta),
            Enemy::SuperBigCup(e) => e.rendered(ms_delta),
        }
    }

    fn render(&self, ms_delta: u32) -> (r: Primitive) {
        match self {
            Enemy::MiddleCup(e) => e.render(ms_delta),
            Enemy::BigCup(e) => e.render(ms_delta),
            Enemy::SuperBigCup(e) => e.render(ms_delta),
        }
    }
}

} // verus!
