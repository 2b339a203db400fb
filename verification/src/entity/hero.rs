//! The hero: the player-controlled singleton entity.

use vstd::prelude::*;

use crate::animation::{AnimatedBitmap, AnimationTicker};
use crate::attribute::MotionAttribute;
use crate::entity::{CollisionBox, Entity, EntityState, MotionState, Vec2};
use crate::game::GameSettings;
use crate::input::{UserInputEvent, UserInputEventReciever};
use crate::render::{extrapolate, extrapolate_axis, BitmapAsset, Primitive, Render};

verus! {

/// The hero's acceleration magnitude while a movement key is held, in
/// deci-pixels per tick per tick.
pub const HERO_ACC: i64 = 40;

/// The hero's friction magnitude, in deci-pixels per tick per tick.
pub const HERO_FRICTION: i64 = 16;

/// The hero's bounding box is 102 by 126 pixels.
pub const HERO_BOX_W: i64 = 1020;

pub const HERO_BOX_H: i64 = 1260;

pub struct Hero {
    pub health: u16,
    pub motion_state: MotionState,
    pub shooting: bool,
    pub shooting_cooldown: u16,
    pub state: EntityState,
    pub animation: AnimatedBitmap,
    pub die_animation: AnimatedBitmap,
}

/// The value `Hero::new(x, y)` constructs: full health, at rest at `(x, y)`,
/// not shooting, alive, with the idle and death animations at their first
/// frames.
pub open spec fn is_fresh_hero(h: Hero, x: int, y: int) -> bool {
    &&& h.health == 100
    &&& h.motion_state == (MotionState {
        pos: (Vec2 { x: x as i64, y: y as i64 }),
        speed: (Vec2 { x: 0, y: 0 }),
        acc: (Vec2 { x: 0, y: 0 }),
        acc_val: HERO_ACC,
        friction: HERO_FRICTION,
    })
    &&& h.shooting == false
    &&& h.shooting_cooldown == 0
    &&& h.state == EntityState::Normal
    &&& h.animation.bitmaps@ == seq![BitmapAsset::Hero1, BitmapAsset::Hero2]
    &&& h.animation.animation_tick == (AnimationTicker {
        tick_per_frame: 3,
        tick_cnt: 0,
        total: 2,
        cur: 0,
    })
    &&& h.die_animation.bitmaps@ == seq![
        BitmapAsset::HeroDown1,
        BitmapAsset::HeroDown2,
        BitmapAsset::HeroDown3,
        BitmapAsset::HeroDown4,
    ]
    &&& h.die_animation.animation_tick == (AnimationTicker {
        tick_per_frame: 2,
        tick_cnt: 0,
        total: 4,
        cur: 0,
    })
}

impl Hero {
    pub open spec fn wf(self) -> bool {
        &&& self.motion_state.wf()
        &&& self.animation.wf()
        &&& self.die_animation.wf()
    }

    /// The hero after one tick: motion integrates only while Normal; exactly
    /// one animation advances, chosen by the state; the death animation's
    /// completed cycle makes the hero Died.
    pub open spec fn ticked(self, settings: GameSettings) -> Self {
        let moved = if self.state == EntityState::Normal {
            Hero { motion_state: self.motion_state.ticked(settings), ..self }
        } else {
            self
        };
        match self.state {
            EntityState::Normal => Hero { animation: moved.animation.ticked(), ..moved },
            EntityState::DieAnimating => Hero {
                die_animation: moved.die_animation.ticked(),
                state: if moved.die_animation.cycle_done() {
                    EntityState::Died
                } else {
                    EntityState::DieAnimating
                },
                ..moved
            },
            _ => moved,
        }
    }

    /// The hero after one key transition: a held movement key sets the
    /// matching acceleration component to the acceleration magnitude, a
    /// released one zeroes it; the space key sets the shooting intent; any
    /// other key changes nothing.
    pub open spec fn spec_updated(self, key: Seq<char>, pressed: bool) -> Self {
        let m = self.motion_state;
        if key == seq!['w'] {
            Hero {
                motion_state: (MotionState {
                    acc: (Vec2 { x: m.acc.x, y: if pressed { m.acc_val } else { 0 } }),
                    ..m
                }),
                ..self
            }
        } else if key == seq!['a'] {
            Hero {
                motion_state: (MotionState {
                    acc: (Vec2 { x: if pressed { (-m.acc_val) as i64 } else { 0 }, y: m.acc.y }),
                    ..m
                }),
                ..self
            }
        } else if key == seq!['s'] {
            Hero {
                motion_state: (MotionState {
                    acc: (Vec2 { x: m.acc.x, y: if pressed { (-m.acc_val) as i64 } else { 0 } }),
                    ..m
                }),
                ..self
            }
        } else if key == seq!['d'] {
            Hero {
                motion_state: (MotionState {
                    acc: (Vec2 { x: if pressed { m.acc_val } else { 0 }, y: m.acc.y }),
                    ..m
                }),
                ..self
            }
        } else if key == seq![' '] {
            Hero { shooting: pressed, ..self }
        } else {
            self
        }
    }

    pub fn new(x: i64, y: i64) -> (r: Self)
        requires
            0 <= x <= crate::entity::POS_LIMIT,
            0 <= y <= crate::entity::POS_LIMIT,
        ensures
            is_fresh_hero(r, x as int, y as int),
            r.wf(),
    {
        let mut animation_frames: Vec<BitmapAsset> = Vec::new();
        animation_frames.push(BitmapAsset::Hero1);
        animation_frames.push(BitmapAsset::Hero2);
        let mut die_frames: Vec<BitmapAsset> = Vec::new();
        die_frames.push(BitmapAsset::HeroDown1);
        die_frames.push(BitmapAsset::HeroDown2);
        die_frames.push(BitmapAsset::HeroDown3);
        die_frames.push(BitmapAsset::HeroDown4);
        let r = Self {
            health: 100,
            motion_state: MotionState {
                pos: Vec2 { x, y },
                speed: Vec2 { x: 0, y: 0 },
                acc: Vec2 { x: 0, y: 0 },
                acc_val: HERO_ACC,
                friction: HERO_FRICTION,
            },
            shooting: false,
            shooting_cooldown: 0,
            state: EntityState::Normal,
            animation: AnimatedBitmap::new(animation_frames, 3),
            die_animation: AnimatedBitmap::new(die_frames, 2),
        };
        proof {
            assert(r.animation.bitmaps@ == seq![BitmapAsset::Hero1, BitmapAsset::Hero2]);
            assert(r.die_animation.bitmaps@ == seq![
                BitmapAsset::HeroDown1,
                BitmapAsset::HeroDown2,
                BitmapAsset::HeroDown3,
                BitmapAsset::HeroDown4,
            ]);
        }
        r
    }

    /// Advance the hero by one tick.  Once Died, a tick changes nothing.
    pub fn tick(&mut self, settings: &GameSettings)
        requires
            old(self).wf(),
        ensures
            *final(self) == old(self).ticked(*settings),
            final(self).wf(),
            old(self).state == EntityState::Died ==> *final(self) == *old(self),
    {
        if self.state == EntityState::Normal {
            self.motion_state.tick(settings);
        }
        match self.state {
            EntityState::Normal => {
                self.animation.tick();
            },
            EntityState::DieAnimating => {
                if self.die_animation.tick() {
                    self.state = EntityState::Died;
                }
            },
            _ => {},
        }
    }
}

/// The hero after `n` ticks under fixed settings.
pub open spec fn hero_iterated(h: Hero, settings: GameSettings, n: nat) -> Hero
    decreases n,
{
    if n == 0 {
        h
    } else {
        hero_iterated(h, settings, (n - 1) as nat).ticked(settings)
    }
}

/// While not Normal, a tick never moves the hero: from the moment the hero
/// starts dying, input-driven acceleration has no effect on its motion.
pub proof fn lemma_non_normal_hero_motion_frozen(h: Hero, settings: GameSettings)
    requires
        h.state != EntityState::Normal,
    ensures
        h.ticked(settings).motion_state == h.motion_state,
{
}

/// The death countdown: a hero that has just started dying (death animation
/// at its first frame) keeps its motion, health, intent and idle animation
/// frozen through every further tick, stays DieAnimating while the death
/// animation plays, and is Died exactly after
/// `frames * ticks_per_frame` ticks — neither earlier nor later.
pub proof fn lemma_dying_hero_countdown(h: Hero, settings: GameSettings, n: nat)
    requires
        h.state == EntityState::DieAnimating,
        h.die_animation.animation_tick.wf(),
        h.die_animation.animation_tick.tick_cnt == 0,
        h.die_animation.animation_tick.cur == 0,
        n <= h.die_animation.animation_tick.tick_per_frame
            * h.die_animation.animation_tick.total,
    ensures
        ({
            let hn = hero_iterated(h, settings, n);
            let t0 = h.die_animation.animation_tick;
            &&& hn.motion_state == h.motion_state
            &&& hn.health == h.health
            &&& hn.shooting == h.shooting
            &&& hn.shooting_cooldown == h.shooting_cooldown
            &&& hn.animation == h.animation
            &&& hn.die_animation.bitmaps == h.die_animation.bitmaps
            &&& hn.die_animation.animation_tick == crate::animation::ticker_iterated(t0, n)
            &&& n < t0.tick_per_frame * t0.total ==> hn.state == EntityState::DieAnimating
            &&& n == t0.tick_per_frame * t0.total ==> hn.state == EntityState::Died
        }),
    decreases n,
{
    let t0 = h.die_animation.animation_tick;
    let tpf = t0.tick_per_frame;
    let total = t0.total;
    assert(tpf * total >= 1) by (nonlinear_arith)
        requires
            1 <= tpf && 1 <= total,
    ;
    if n > 0 {
        lemma_dying_hero_countdown(h, settings, (n - 1) as nat);
        crate::animation::lemma_animation_cycle(tpf, total, n);
        if n < tpf * total {
            vstd::arithmetic::div_mod::lemma_small_mod(n, (tpf * total) as nat);
        } else {
            vstd::arithmetic::div_mod::lemma_mod_self_0(tpf as int * total as int);
        }
    }
}

impl UserInputEventReciever for Hero {
    open spec fn update_wf(&self) -> bool {
        self.wf()
    }

    open spec fn updated(&self, key: Seq<char>, pressed: bool) -> Self {
        self.spec_updated(key, pressed)
    }

    fn update(&mut self, user_input_event: &UserInputEvent) {
        let k = user_input_event.key();
        if k.as_str().unicode_len() == 1 {
            let c = k.as_str().get_char(0);
            if c == 'w' {
                proof {
                    assert(user_input_event.key@ =~= seq!['w']);
                }
                if user_input_event.pressed {
                    self.motion_state.acc.y = self.motion_state.acc_val;
                } else {
                    self.motion_state.acc.y = 0;
                }
            } else if c == 'a' {
                proof {
                    assert(user_input_event.key@ =~= seq!['a']);
                }
                if user_input_event.pressed {
                    self.motion_state.acc.x = -self.motion_state.acc_val;
                } else {
                    self.motion_state.acc.x = 0;
                }
            } else if c == 's' {
                proof {
                    assert(user_input_event.key@ =~= seq!['s']);
                }
                if user_input_event.pressed {
                    self.motion_state.acc.y = -self.motion_state.acc_val;
                } else {
                    self.motion_state.acc.y = 0;
                }
            } else if c == 'd' {
                proof {
                    assert(user_input_event.key@ =~= seq!['d']);
                }
                if user_input_event.pressed {
                    self.motion_state.acc.x = self.motion_state.acc_val;
                } else {
                    self.motion_state.acc.x = 0;
                }
            } else if c == ' ' {
                proof {
                    assert(user_input_event.key@ =~= seq![' ']);
                }
                self.shooting = user_input_event.pressed;
            }
        }
    }
}

impl Entity for Hero {
    open spec fn spec_motion_attribute(&self) -> MotionAttribute {
        MotionAttribute::AcceleratedWithFriction { acceleration: HERO_ACC, friction: HERO_FRICTION }
    }

    fn motion_attribute(&self) -> (r: MotionAttribute) {
        MotionAttribute::AcceleratedWithFriction { acceleration: HERO_ACC, friction: HERO_FRICTION }
    }
}

impl CollisionBox for Hero {
    open spec fn spec_bounding_box(&self) -> (int, int, int, int) {
        (
            self.motion_state.pos.x as int,
            self.motion_state.pos.y as int,
            HERO_BOX_W as int,
            HERO_BOX_H as int,
        )
    }

    fn bounding_box(&self) -> (r: (i64, i64, i64, i64)) {
        (self.motion_state.pos.x, self.motion_state.pos.y, HERO_BOX_W, HERO_BOX_H)
    }
}

impl Render for Hero {
    open spec fn render_wf(&self) -> bool {
        self.wf()
    }

    /// The hero draws its idle animation while alive and its death animation
    /// while dying, at the extrapolated position.
    open spec fn rendered(&self, ms_delta: int) -> Primitive {
        Primitive {
            bitmap: match self.state {
                EntityState::Normal => self.animation.spec_cur_bitmap(),
                EntityState::DieAnimating => self.die_animation.spec_cur_bitmap(),
                _ => self.animation.spec_cur_bitmap(),
            },
            position: (
                extrapolate(
                    self.motion_state.pos.x as int,
                    self.motion_state.speed.x as int,
                    ms_delta,
                ) as i64,
                extrapolate(
                    self.motion_state.pos.y as int,
                    self.motion_state.speed.y as int,
                    ms_delta,
                ) as i64,
            ),
            rotate_angle: 0,
        }
    }

    fn render(&self, ms_delta: u32) -> (r: Primitive) {
        let px = extrapolate_axis(self.motion_state.pos.x, self.motion_state.speed.x, ms_delta);
        let py = extrapolate_axis(self.motion_state.pos.y, self.motion_state.speed.y, ms_delta);
        let bitmap = match self.state {
            EntityState::Normal => self.animation.cur_bitmap(),
            EntityState::DieAnimating => self.die_animation.cur_bitmap(),
            _ => self.animation.cur_bitmap(),
        };
        Primitive::new(bitmap, (px, py), 0)
    }
}

} // verus!
