//! Entity kinematics and collision: the motion integrator, the shared
//! lifecycle state machine, and the axis-aligned bounding-box overlap test.
//!
//! All positions, speeds and accelerations are fixed-point integers in tenths
//! of a pixel (deci-pixels); speeds are per tick.

use vstd::prelude::*;

use crate::attribute::MotionAttribute;
use crate::game::GameSettings;

pub mod bullet;
pub mod enemy;
pub mod hero;

verus! {

/// Largest position coordinate: the largest arena bound (65535 pixels) in
/// deci-pixels.
pub const POS_LIMIT: i64 = 655350;

/// Largest speed magnitude an entity can reach: crossing the whole arena in
/// one tick, plus the largest spawn speed (a bullet's 8 pixels per tick).
pub const SPEED_LIMIT: i64 = 655430;

/// A 2D vector in deci-pixels.
#[derive(Clone, Copy, PartialEq, Eq, Structural, Debug)]
pub struct Vec2 {
    pub x: i64,
    pub y: i64,
}

/// Lifecycle of the hero and of multi-hit enemies.
#[derive(Clone, Copy, PartialEq, Eq, Structural, Debug)]
pub enum EntityState {
    Normal,
    HittedAnimating,
    DieAnimating,
    Died,
}

/// Speed after one tick of friction: the magnitude shrinks by `friction`,
/// floored at zero, never crossing zero.
pub open spec fn decayed(speed: int, friction: int) -> int {
    if speed > 0 {
        if speed - friction > 0 {
            speed - friction
        } else {
            0
        }
    } else if speed < 0 {
        if speed + friction < 0 {
            speed + friction
        } else {
            0
        }
    } else {
        0
    }
}

pub open spec fn clamped(v: int, lo: int, hi: int) -> int {
    if v < lo {
        lo
    } else if v > hi {
        hi
    } else {
        v
    }
}

/// The position one axis would reach in a tick before bounds clamping:
/// friction decays the speed, acceleration is added, the speed moves the
/// position.
pub open spec fn axis_raw_pos(pos: int, speed: int, acc: int, friction: int) -> int {
    pos + decayed(speed, friction) + acc
}

/// One axis of the motion step: friction decay, acceleration, move, then
/// clamp to `[0, bound]`; clamping zeroes the speed (inelastic wall stop).
/// Returns the new position and speed.
pub open spec fn axis_ticked(pos: int, speed: int, acc: int, friction: int, bound: int) -> (
    int,
    int,
) {
    let s = decayed(speed, friction) + acc;
    let p = pos + s;
    if p < 0 || p > bound {
        (clamped(p, 0, bound), 0)
    } else {
        (p, s)
    }
}

/// Position, velocity and input-driven acceleration of one entity, with its
/// constant acceleration and friction magnitudes.  Owned exclusively by the
/// entity it belongs to.
#[derive(Clone, Copy, PartialEq, Eq, Structural, Debug)]
pub struct MotionState {
    pub pos: Vec2,
    pub speed: Vec2,
    pub acc: Vec2,
    pub acc_val: i64,
    pub friction: i64,
}

impl Default for MotionState {
    fn default() -> (r: Self)
        ensures
            r == (MotionState {
                pos: (Vec2 { x: 0, y: 0 }),
                speed: (Vec2 { x: 0, y: 0 }),
                acc: (Vec2 { x: 0, y: 0 }),
                acc_val: 0,
                friction: 0,
            }),
    {
        MotionState {
            pos: Vec2 { x: 0, y: 0 },
            speed: Vec2 { x: 0, y: 0 },
            acc: Vec2 { x: 0, y: 0 },
            acc_val: 0,
            friction: 0,
        }
    }
}

impl MotionState {
    /// Well-formed: the position sits inside the largest possible arena, the
    /// speed cannot exceed one arena crossing per tick plus a spawn speed,
    /// and the acceleration is bounded by the entity's constant magnitude.
    pub open spec fn wf(self) -> bool {
        &&& 0 <= self.pos.x <= POS_LIMIT
        &&& 0 <= self.pos.y <= POS_LIMIT
        &&& -SPEED_LIMIT <= self.speed.x <= SPEED_LIMIT
        &&& -SPEED_LIMIT <= self.speed.y <= SPEED_LIMIT
        &&& 0 <= self.acc_val <= SPEED_LIMIT
        &&& -self.acc_val <= self.acc.x <= self.acc_val
        &&& -self.acc_val <= self.acc.y <= self.acc_val
        &&& 0 <= self.friction <= SPEED_LIMIT
    }

    /// The state after one motion tick: each axis integrates independently
    /// and is clamped to the arena.
    pub open spec fn ticked(self, settings: GameSettings) -> Self {
        let rx = axis_ticked(
            self.pos.x as int,
            self.speed.x as int,
            self.acc.x as int,
            self.friction as int,
            settings.bound_x(),
        );
        let ry = axis_ticked(
            self.pos.y as int,
            self.speed.y as int,
            self.acc.y as int,
            self.friction as int,
            settings.bound_y(),
        );
        MotionState {
            pos: (Vec2 { x: rx.0 as i64, y: ry.0 as i64 }),
            speed: (Vec2 { x: rx.1 as i64, y: ry.1 as i64 }),
            ..self
        }
    }

    /// Advance one tick.  The exact result is `old(self).ticked(*game_setting)`;
    /// the extra clauses state the bounds-clamp rule directly: the position
    /// ends inside `[0, bound]` on each axis, and an axis driven outside has
    /// its speed zeroed.
    pub fn tick(&mut self, game_setting: &GameSettings)
        requires
            old(self).wf(),
        ensures
            *final(self) == old(self).ticked(*game_setting),
            final(self).wf(),
            0 <= final(self).pos.x <= game_setting.bound_x(),
            0 <= final(self).pos.y <= game_setting.bound_y(),
            !(0 <= axis_raw_pos(
                old(self).pos.x as int,
                old(self).speed.x as int,
                old(self).acc.x as int,
                old(self).friction as int,
            ) <= game_setting.bound_x()) ==> final(self).speed.x == 0,
            !(0 <= axis_raw_pos(
                old(self).pos.y as int,
                old(self).speed.y as int,
                old(self).acc.y as int,
                old(self).friction as int,
            ) <= game_setting.bound_y()) ==> final(self).speed.y == 0,
    {
        let bx = (game_setting.width as i64) * 10;
        let by = (game_setting.height as i64) * 10;
        let rx = axis_tick(self.pos.x, self.speed.x, self.acc.x, self.friction, bx);
        let ry = axis_tick(self.pos.y, self.speed.y, self.acc.y, self.friction, by);
        self.pos = Vec2 { x: rx.0, y: ry.0 };
        self.speed = Vec2 { x: rx.1, y: ry.1 };
    }
}

/// One axis of the motion step, executably.
fn axis_tick(pos: i64, speed: i64, acc: i64, friction: i64, bound: i64) -> (r: (i64, i64))
    requires
        -POS_LIMIT <= pos <= POS_LIMIT,
        -SPEED_LIMIT <= speed <= SPEED_LIMIT,
        -SPEED_LIMIT <= acc <= SPEED_LIMIT,
        0 <= friction <= SPEED_LIMIT,
        0 <= bound <= POS_LIMIT,
    ensures
        r.0 == axis_ticked(pos as int, speed as int, acc as int, friction as int, bound as int).0,
        r.1 == axis_ticked(pos as int, speed as int, acc as int, friction as int, bound as int).1,
{
    let s0: i64 = if speed > 0 {
        if speed - friction > 0 {
            speed - friction
        } else {
            0
        }
    } else if speed < 0 {
        if speed + friction < 0 {
            speed + friction
        } else {
            0
        }
    } else {
        0
    };
    let s = s0 + acc;
    let p = pos + s;
    if p < 0 {
        (0, 0)
    } else if p > bound {
        (bound, 0)
    } else {
        (p, s)
    }
}

/// The motion state after `n` ticks under fixed settings.
pub open spec fn motion_iterated(m: MotionState, settings: GameSettings, n: nat) -> MotionState
    decreases n,
{
    if n == 0 {
        m
    } else {
        motion_iterated(m, settings, (n - 1) as nat).ticked(settings)
    }
}

/// A well-formed motion state stays well-formed across a tick.
pub proof fn lemma_ticked_wf(m: MotionState, settings: GameSettings)
    requires
        m.wf(),
    ensures
        m.ticked(settings).wf(),
{
}

/// Motion decay monotonicity: with zero acceleration, repeated ticks never
/// flip the sign of the speed, never grow its magnitude, and drive it to
/// exactly zero once `n * friction` covers the initial magnitude — that is,
/// within `ceil(|speed| / friction)` ticks.
pub proof fn lemma_motion_decay(m: MotionState, settings: GameSettings, n: nat)
    requires
        m.wf(),
        m.acc.x == 0,
        m.acc.y == 0,
        m.friction >= 1,
    ensures
        motion_iterated(m, settings, n).wf(),
        m.speed.x >= 0 ==> 0 <= motion_iterated(m, settings, n).speed.x <= m.speed.x,
        m.speed.x <= 0 ==> m.speed.x <= motion_iterated(m, settings, n).speed.x <= 0,
        m.speed.y >= 0 ==> 0 <= motion_iterated(m, settings, n).speed.y <= m.speed.y,
        m.speed.y <= 0 ==> m.speed.y <= motion_iterated(m, settings, n).speed.y <= 0,
        motion_iterated(m, settings, n).speed.x == 0 || vstd::math::abs(
            motion_iterated(m, settings, n).speed.x as int,
        ) <= vstd::math::abs(m.speed.x as int) - n * m.friction,
        motion_iterated(m, settings, n).speed.y == 0 || vstd::math::abs(
            motion_iterated(m, settings, n).speed.y as int,
        ) <= vstd::math::abs(m.speed.y as int) - n * m.friction,
        motion_iterated(m, settings, n).acc == m.acc,
        motion_iterated(m, settings, n).friction == m.friction,
    decreases n,
{
    if n > 0 {
        lemma_motion_decay(m, settings, (n - 1) as nat);
        let prev = motion_iterated(m, settings, (n - 1) as nat);
        lemma_ticked_wf(prev, settings);
        assert(n * m.friction == (n - 1) * m.friction + m.friction) by (nonlinear_arith);
    }
}

/// Motion decay, stated with the explicit tick count `ceil(|speed| / friction)`:
/// by then both speed components are exactly zero.
pub proof fn lemma_motion_decay_zero_within_ceil(m: MotionState, settings: GameSettings, n: nat)
    requires
        m.wf(),
        m.acc.x == 0,
        m.acc.y == 0,
        m.friction >= 1,
        n >= (vstd::math::abs(m.speed.x as int) + m.friction - 1) / (m.friction as int),
        n >= (vstd::math::abs(m.speed.y as int) + m.friction - 1) / (m.friction as int),
    ensures
        motion_iterated(m, settings, n).speed == (Vec2 { x: 0, y: 0 }),
{
    lemma_motion_decay(m, settings, n);
    let f = m.friction as int;
    let ax = vstd::math::abs(m.speed.x as int) as int;
    let ay = vstd::math::abs(m.speed.y as int) as int;
    let cx = (ax + f - 1) / f;
    let cy = (ay + f - 1) / f;
    vstd::arithmetic::div_mod::lemma_fundamental_div_mod(ax + f - 1, f);
    vstd::arithmetic::div_mod::lemma_fundamental_div_mod(ay + f - 1, f);
    vstd::arithmetic::div_mod::lemma_mod_division_less_than_divisor(ax + f - 1, f);
    vstd::arithmetic::div_mod::lemma_mod_division_less_than_divisor(ay + f - 1, f);
    assert(f * cx >= ax);
    assert(f * cy >= ay);
    assert(n * f >= cx * f) by (nonlinear_arith)
        requires
            n >= cx,
            f >= 1,
    ;
    assert(n * f >= cy * f) by (nonlinear_arith)
        requires
            n >= cy,
            f >= 1,
    ;
    assert(cx * f == f * cx) by (nonlinear_arith);
    assert(cy * f == f * cy) by (nonlinear_arith);
}

/// An entity with an axis-aligned bounding box, described as center point
/// plus full width and height, in deci-pixels.
pub trait CollisionBox: Sized {
    /// `(center_x, center_y, width, height)`, in deci-pixels.
    spec fn spec_bounding_box(&self) -> (int, int, int, int);

    fn bounding_box(&self) -> (r: (i64, i64, i64, i64))
        ensures
            (r.0 as int, r.1 as int, r.2 as int, r.3 as int) == self.spec_bounding_box(),
    ;
}

/// Two boxes collide iff on each axis the distance between the centers is at
/// most half the sum of the extents.
pub open spec fn boxes_overlap(a: (int, int, int, int), b: (int, int, int, int)) -> bool {
    &&& 2 * vstd::math::abs(a.0 - b.0) <= a.2 + b.2
    &&& 2 * vstd::math::abs(a.1 - b.1) <= a.3 + b.3
}

/// A box whose center and extents a well-formed entity can produce.
pub open spec fn box_in_range(b: (int, int, int, int)) -> bool {
    &&& -POS_LIMIT <= b.0 <= POS_LIMIT
    &&& -POS_LIMIT <= b.1 <= POS_LIMIT
    &&& 0 <= b.2 <= POS_LIMIT
    &&& 0 <= b.3 <= POS_LIMIT
}

/// The overlap test is symmetric in its two boxes.
pub proof fn lemma_collision_symmetry(a: (int, int, int, int), b: (int, int, int, int))
    ensures
        boxes_overlap(a, b) == boxes_overlap(b, a),
{
}

/// Axis-aligned bounding-box overlap test.
pub fn collisioned<A: CollisionBox, B: CollisionBox>(a: &A, b: &B) -> (r: bool)
    requires
        box_in_range(a.spec_bounding_box()),
        box_in_range(b.spec_bounding_box()),
    ensures
        r == boxes_overlap(a.spec_bounding_box(), b.spec_bounding_box()),
{
    let ba = a.bounding_box();
    let bb = b.bounding_box();
    let dx: i64 = if ba.0 >= bb.0 {
        ba.0 - bb.0
    } else {
        bb.0 - ba.0
    };
    let dy: i64 = if ba.1 >= bb.1 {
        ba.1 - bb.1
    } else {
        bb.1 - ba.1
    };
    if 2 * dx <= ba.2 + bb.2 && 2 * dy <= ba.3 + bb.3 {
        true
    } else {
        false
    }
}

/// An entity that declares its kinematic profile.
pub trait Entity: Sized {
    /// The profile `motion_attribute` must report.
    spec fn spec_motion_attribute(&self) -> MotionAttribute;

    fn motion_attribute(&self) -> (r: MotionAttribute)
        ensures
            r == self.spec_motion_attribute(),
    ;
}

} // verus!
