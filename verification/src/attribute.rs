//! Declared kinematic profiles.
//!
//! Speeds are in deci-pixels per tick; one tick normally lasts 50 ms.

use vstd::prelude::*;

verus! {

/// An entity's declared kinematic profile.  Descriptive metadata: the motion
/// integrator reads the per-entity constants instead (see
/// `entity::MotionState`).
#[derive(Clone, Copy, PartialEq, Eq, Structural, Debug)]
pub enum MotionAttribute {
    Static,
    UniformSpeed { speed: i64 },
    Accelerated { acceleration: i64 },
    AcceleratedWithFriction { acceleration: i64, friction: i64 },
}

} // verus!
