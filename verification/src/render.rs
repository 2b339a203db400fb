//! Renderable primitives: bitmap identifiers, the per-frame drawable unit,
//! and the visual-extrapolation rule shared by every entity.
//!
//! Positions are fixed-point integers in tenths of a pixel (deci-pixels);
//! rotation angles are in tenths of a radian.

use vstd::prelude::*;

verus! {

/// Identifier of one bitmap resource; the host resolves it to an image file.
#[derive(Clone, Copy, PartialEq, Eq, Structural, Debug)]
pub enum BitmapAsset {
    BulletEnemy,
    BulletPlayer,
    Enemy1,
    Enemy1Down1,
    Enemy1Down2,
    Enemy1Down3,
    Enemy1Down4,
    Enemy2,
    Enemy2Hit,
    Enemy2Down1,
    Enemy2Down2,
    Enemy2Down3,
    Enemy2Down4,
    Enemy3N1,
    Enemy3N2,
    Enemy3Hit,
    Enemy3Down1,
    Enemy3Down2,
    Enemy3Down3,
    Enemy3Down4,
    Enemy3Down5,
    Enemy3Down6,
    Hero1,
    Hero2,
    HeroDown1,
    HeroDown2,
    HeroDown3,
    HeroDown4,
}

/// The file name that each bitmap identifier stands for.
pub open spec fn spec_bitmap_filename(bitmap_asset: BitmapAsset) -> Seq<char> {
    match bitmap_asset {
        BitmapAsset::BulletEnemy => "bullet_enemy.png"@,
        BitmapAsset::BulletPlayer => "bullet_player.png"@,
        BitmapAsset::Enemy1 => "enemy1.png"@,
        BitmapAsset::Enemy1Down1 => "enemy1_down1.png"@,
        BitmapAsset::Enemy1Down2 => "enemy1_down2.png"@,
        BitmapAsset::Enemy1Down3 => "enemy1_down3.png"@,
        BitmapAsset::Enemy1Down4 => "enemy1_down4.png"@,
        BitmapAsset::Enemy2 => "enemy2.png"@,
        BitmapAsset::Enemy2Hit => "enemy2_hit.png"@,
        BitmapAsset::Enemy2Down1 => "enemy2_down1.png"@,
        BitmapAsset::Enemy2Down2 => "enemy2_down2.png"@,
        BitmapAsset::Enemy2Down3 => "enemy2_down3.png"@,
        BitmapAsset::Enemy2Down4 => "enemy2_down4.png"@,
        BitmapAsset::Enemy3N1 => "enemy3_n1.png"@,
        BitmapAsset::Enemy3N2 => "enemy3_n2.png"@,
        BitmapAsset::Enemy3Hit => "enemy3_hit.png"@,
        BitmapAsset::Enemy3Down1 => "enemy3_down1.png"@,
        BitmapAsset::Enemy3Down2 => "enemy3_down2.png"@,
        BitmapAsset::Enemy3Down3 => "enemy3_down3.png"@,
        BitmapAsset::Enemy3Down4 => "enemy3_down4.png"@,
        BitmapAsset::Enemy3Down5 => "enemy3_down5.png"@,
        BitmapAsset::Enemy3Down6 => "enemy3_down6.png"@,
        BitmapAsset::Hero1 => "hero1.png"@,
        BitmapAsset::Hero2 => "hero2.png"@,
        BitmapAsset::HeroDown1 => "hero_down1.png"@,
        BitmapAsset::HeroDown2 => "hero_down2.png"@,
        BitmapAsset::HeroDown3 => "hero_down3.png"@,
        BitmapAsset::HeroDown4 => "hero_down4.png"@,
    }
}

pub fn bitmap_filename(bitmap_asset: BitmapAsset) -> (r: String)
    ensures
        r@ == spec_bitmap_filename(bitmap_asset),
{
    match bitmap_asset {
        BitmapAsset::BulletEnemy => "bullet_enemy.png".to_owned(),
        BitmapAsset::BulletPlayer => "bullet_player.png".to_owned(),
        BitmapAsset::Enemy1 => "enemy1.png".to_owned(),
        BitmapAsset::Enemy1Down1 => "enemy1_down1.png".to_owned(),
        BitmapAsset::Enemy1Down2 => "enemy1_down2.png".to_owned(),
        BitmapAsset::Enemy1Down3 => "enemy1_down3.png".to_owned(),
        BitmapAsset::Enemy1Down4 => "enemy1_down4.png".to_owned(),
        BitmapAsset::Enemy2 => "enemy2.png".to_owned(),
        BitmapAsset::Enemy2Hit => "enemy2_hit.png".to_owned(),
        BitmapAsset::Enemy2Down1 => "enemy2_down1.png".to_owned(),
        BitmapAsset::Enemy2Down2 => "enemy2_down2.png".to_owned(),
        BitmapAsset::Enemy2Down3 => "enemy2_down3.png".to_owned(),
        BitmapAsset::Enemy2Down4 => "enemy2_down4.png".to_owned(),
        BitmapAsset::Enemy3N1 => "enemy3_n1.png".to_owned(),
        BitmapAsset::Enemy3N2 => "enemy3_n2.png".to_owned(),
        BitmapAsset::Enemy3Hit => "enemy3_hit.png".to_owned(),
        BitmapAsset::Enemy3Down1 => "enemy3_down1.png".to_owned(),
        BitmapAsset::Enemy3Down2 => "enemy3_down2.png".to_owned(),
        BitmapAsset::Enemy3Down3 => "enemy3_down3.png".to_owned(),
        BitmapAsset::Enemy3Down4 => "enemy3_down4.png".to_owned(),
        BitmapAsset::Enemy3Down5 => "enemy3_down5.png".to_owned(),
        BitmapAsset::Enemy3Down6 => "enemy3_down6.png".to_owned(),
        BitmapAsset::Hero1 => "hero1.png".to_owned(),
        BitmapAsset::Hero2 => "hero2.png".to_owned(),
        BitmapAsset::HeroDown1 => "hero_down1.png".to_owned(),
        BitmapAsset::HeroDown2 => "hero_down2.png".to_owned(),
        BitmapAsset::HeroDown3 => "hero_down3.png".to_owned(),
        BitmapAsset::HeroDown4 => "hero_down4.png".to_owned(),
    }
}

/// One drawable unit: a bitmap, an extrapolated screen position in
/// deci-pixels, and a rotation angle in deci-radians.  Rebuilt every frame,
/// never mutated.
#[derive(Clone, Copy, PartialEq, Eq, Debug)]
pub struct Primitive {
    pub bitmap: BitmapAsset,
    pub position: (i64, i64),
    pub rotate_angle: i64,
}

impl Primitive {
    pub fn new(bitmap: BitmapAsset, position: (i64, i64), rotate_angle: i64) -> (r: Self)
        ensures
            r == (Primitive { bitmap, position, rotate_angle }),
    {
        Self { bitmap, position, rotate_angle }
    }
}

/// Visual extrapolation of one axis: the simulated position plus the distance
/// the entity would cover in `ms_delta` milliseconds at its current speed,
/// with one simulation tick lasting 50 ms.  Speed is in deci-pixels per tick;
/// the division truncates toward zero.
pub open spec fn extrapolate(pos: int, speed: int, ms_delta: int) -> int {
    if speed >= 0 {
        pos + (speed * ms_delta) / 50
    } else {
        pos - ((-speed) * ms_delta) / 50
    }
}

/// One axis of the visual extrapolation, executably.
pub fn extrapolate_axis(pos: i64, speed: i64, ms_delta: u32) -> (r: i64)
    requires
        -crate::entity::POS_LIMIT <= pos <= crate::entity::POS_LIMIT,
        -crate::entity::SPEED_LIMIT <= speed <= crate::entity::SPEED_LIMIT,
    ensures
        r == extrapolate(pos as int, speed as int, ms_delta as int),
{
    proof {
        assert(0 <= vstd::math::abs(speed as int) * (ms_delta as int) <= 655430 * 4294967295int)
            by (nonlinear_arith)
            requires
                -655430 <= speed as int <= 655430,
                0 <= ms_delta as int <= 4294967295int,
        ;
    }
    if speed >= 0 {
        pos + (speed * (ms_delta as i64)) / 50
    } else {
        pos - ((-speed) * (ms_delta as i64)) / 50
    }
}

/// Projects an entity to its drawable primitive for the current frame,
/// `ms_delta` milliseconds after the last simulation tick.
pub trait Render: Sized {
    /// Entities may restrict rendering to well-formed states, so that the
    /// extrapolation arithmetic stays in range.
    spec fn render_wf(&self) -> bool;

    /// The primitive that `render` must produce.
    spec fn rendered(&self, ms_delta: int) -> Primitive;

    fn render(&self, ms_delta: u32) -> (r: Primitive)
        requires
            self.render_wf(),
        ensures
            r == self.rendered(ms_delta as int),
    ;
}

} // verus!
