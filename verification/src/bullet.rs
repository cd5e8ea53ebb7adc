//! Projectiles: a movable rectangle with an in-flight flag, advanced along
//! the vertical axis while in flight and parked at its owner otherwise.

use vstd::prelude::*;
use crate::geom::Point;
use crate::geom::Rect;
use crate::sprite::FrameSize;
use crate::sprite::GameError;
use crate::sprite::Sprite;

verus! {

/// A projectile: its animation, its screen rectangle and whether it is
/// currently in flight.
#[derive(Clone, PartialEq, Eq, Debug)]
pub struct Bullet {
    pub sprite: Sprite,
    pub dest_rect: Rect,
    pub in_air: bool,
}

impl Bullet {
    pub open spec fn wf(self) -> bool {
        &&& self.sprite.wf()
        &&& self.dest_rect.wf()
    }

    /// A freshly loaded projectile is not in flight.
    pub fn new(sprite: Sprite, dest_rect: Rect) -> (b: Bullet)
        requires
            sprite.wf(),
            dest_rect.wf(),
        ensures
            b == (Bullet { sprite, dest_rect, in_air: false }),
    {
        Bullet { sprite, dest_rect, in_air: false }
    }

    /// Move the projectile; `scaled` applies the rectangle's own scale to
    /// the displacement.
    pub fn translate(&mut self, offset: Point, scaled: bool)
        requires
            old(self).wf(),
            -crate::geom::DELTA_LIMIT <= offset.x <= crate::geom::DELTA_LIMIT,
            -crate::geom::DELTA_LIMIT <= offset.y <= crate::geom::DELTA_LIMIT,
        ensures
            final(self).dest_rect == old(self).dest_rect.spec_translated(
                offset.x as int,
                offset.y as int,
                scaled,
            ),
            final(self).sprite == old(self).sprite,
            final(self).in_air == old(self).in_air,
            final(self).wf(),
    {
        self.dest_rect.translate(offset, scaled);
    }

    pub fn get_coords(&self) -> (p: Point)
        ensures
            p == (Point { x: self.dest_rect.x, y: self.dest_rect.y }),
    {
        Point { x: self.dest_rect.x, y: self.dest_rect.y }
    }

    /// Park the projectile at a position, keeping its scale and flight flag.
    pub fn set_bullet_coords(&mut self, offset: Point)
        ensures
            final(self).dest_rect == (Rect {
                x: offset.x,
                y: offset.y,
                w: old(self).dest_rect.w,
                h: old(self).dest_rect.h,
            }),
            final(self).sprite == old(self).sprite,
            final(self).in_air == old(self).in_air,
    {
        self.dest_rect.x = offset.x;
        self.dest_rect.y = offset.y;
    }

    pub fn set_bullet_dest(&mut self, dest_rect: Rect)
        ensures
            final(self).dest_rect == dest_rect,
            final(self).sprite == old(self).sprite,
            final(self).in_air == old(self).in_air,
    {
        self.dest_rect = dest_rect;
    }

    pub fn set_in_air(&mut self, in_air: bool)
        ensures
            final(self).in_air == in_air,
            final(self).dest_rect == old(self).dest_rect,
            final(self).sprite == old(self).sprite,
    {
        self.in_air = in_air;
    }

    pub fn in_air(&self) -> (r: bool)
        ensures
            r == self.in_air,
    {
        self.in_air
    }

    /// The projectile sprite's base frame size.
    pub fn get_frame_dimensions(&self) -> (r: Result<FrameSize, GameError>)
        ensures
            self.sprite.frames@.len() >= 1 <==> r is Ok,
            r is Ok ==> r->Ok_0 == (FrameSize {
                h: self.sprite.frames@[0].h,
                w: self.sprite.frames@[0].w,
            }),
    {
        self.sprite.get_frame_dimensions(0)
    }

    /// The scale pair collision formulas use: vertical first (`h`), then
    /// horizontal (`w`).
    pub fn get_scale(&self) -> (p: Point)
        ensures
            p == (Point { x: self.dest_rect.h, y: self.dest_rect.w }),
    {
        Point { x: self.dest_rect.h, y: self.dest_rect.w }
    }
}

} // verus!
