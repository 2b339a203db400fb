//! Bullets: motion-only entities owned by the hero or enemy bullet pools.

use vstd::prelude::*;

use crate::entity::{CollisionBox, MotionState, Vec2};
use crate::render::{extrapolate, extrapolate_axis, BitmapAsset, Primitive, Render};

verus! {

/// A bullet's bounding box is 5 by 11 pixels.
pub const BULLET_BOX_W: i64 = 50;

pub const BULLET_BOX_H: i64 = 110;

#[derive(Clone, Copy, PartialEq, Eq, Structural, Debug)]
pub struct Bullet {
    pub motion_state: MotionState,
}

impl Bullet {
    pub open spec fn wf(self) -> bool {
        self.motion_state.wf()
    }

    pub fn new(x: i64, y: i64, speed_x: i64, speed_y: i64) -> (r: Self)
        requires
            0 <= x <= crate::entity::POS_LIMIT,
            0 <= y <= crate::entity::POS_LIMIT,
            -crate::entity::SPEED_LIMIT <= speed_x <= crate::entity::SPEED_LIMIT,
            -crate::entity::SPEED_LIMIT <= speed_y <= crate::entity::SPEED_LIMIT,
        ensures
            r == (Bullet {
                motion_state: (MotionState {
                    pos: (Vec2 { x, y }),
                    speed: (Vec2 { x: speed_x, y: speed_y }),
                    acc: (Vec2 { x: 0, y: 0 }),
                    acc_val: 0,
                    friction: 0,
                }),
            }),
            r.wf(),
    {
        Self {
            motion_state: MotionState {
                pos: Vec2 { x, y },
                speed: Vec2 { x: speed_x, y: speed_y },
                acc: Vec2 { x: 0, y: 0 },
                acc_val: 0,
                friction: 0,
            },
        }
    }
}

impl CollisionBox for Bullet {
    open spec fn spec_bounding_box(&self) -> (int, int, int, int) {
        (
            self.motion_state.pos.x as int,
            self.motion_state.pos.y as int,
            BULLET_BOX_W as int,
            BULLET_BOX_H as int,
        )
    }

    fn bounding_box(&self) -> (r: (i64, i64, i64, i64)) {
        (self.motion_state.pos.x, self.motion_state.pos.y, BULLET_BOX_W, BULLET_BOX_H)
    }
}

impl Render for Bullet {
    open spec fn render_wf(&self) -> bool {
        self.wf()
    }

    open spec fn rendered(&self, ms_delta: int) -> Primitive {
        Primitive {
            bitmap: BitmapAsset::BulletPlayer,
            position: (
                extrapolate(
                    self.motion_state.pos.x as int,
                    self.motion_state.speed.x as int,
                    ms_delta,
                ) as i64,
                extrapolate(
                    self.motion_state.pos.y as int,
                    self.motion_state.speed.y as int,
                    ms_delta,
                ) as i64,
            ),
            rotate_angle: 0,
        }
    }

    fn render(&self, ms_delta: u32) -> (r: Primitive) {
        let px = extrapolate_axis(self.motion_state.pos.x, self.motion_state.speed.x, ms_delta);
        let py = extrapolate_axis(self.motion_state.pos.y, self.motion_state.speed.y, ms_delta);
        Primitive::new(BitmapAsset::BulletPlayer, (px, py), 0)
    }
}

} // verus!
