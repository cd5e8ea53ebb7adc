//! Enemy combatants: an axis-aligned rectangle with alive state, an attached
//! projectile that fires downward, and alive/death animations.

use vstd::prelude::*;
use crate::bullet::Bullet;
use crate::geom::ImageDims;
use crate::geom::Point;
use crate::geom::Rect;
use crate::geom::scaled_dim;
use crate::geom::smul;
use crate::player::Player;
use crate::sprite::FrameSize;
use crate::sprite::GameError;
use crate::sprite::Sprite;

verus! {

/// Forward offset of a projectile's horizontal hit span, in fixed-point
/// units (10.0 screen units).
pub const HIT_MARGIN_FRONT: i64 = 10_000;
/// Trailing shrink of a target's horizontal hit span, in fixed-point units
/// (30.0 screen units).
pub const HIT_MARGIN_BACK: i64 = 30_000;

/// One enemy ship of the formation.
#[derive(Clone, PartialEq, Eq, Debug)]
pub struct Enemy {
    pub sprite_alive: Sprite,
    pub sprite_death: Sprite,
    pub bullet: Bullet,
    pub dest_rect: Rect,
    pub is_alive: bool,
    pub death_animation_drawn: bool,
}

/// The enemy's projectile after one tick: while in flight it advances by
/// `speed_y` downward and retires once below `screen_height`; otherwise it
/// is parked at its living owner's position.
pub open spec fn bullet_after_enemy_update(
    e: Enemy,
    speed_y: int,
    screen_height: int,
    scaled: bool,
) -> Bullet {
    if e.bullet.in_air {
        let moved = e.bullet.dest_rect.spec_translated(0, speed_y, scaled);
        Bullet { sprite: e.bullet.sprite, dest_rect: moved, in_air: moved.y <= screen_height }
    } else if e.is_alive {
        Bullet {
            sprite: e.bullet.sprite,
            dest_rect: Rect {
                x: e.dest_rect.x,
                y: e.dest_rect.y,
                w: e.bullet.dest_rect.w,
                h: e.bullet.dest_rect.h,
            },
            in_air: false,
        }
    } else {
        e.bullet
    }
}

/// Whether this enemy's in-flight projectile overlaps the player: the
/// projectile's span has reached the player's leading edge, and its
/// horizontal span, offset by `HIT_MARGIN_FRONT` and shrunk by
/// `HIT_MARGIN_BACK`, overlaps the player's.
pub open spec fn spec_enemy_bullet_hits_player(e: Enemy, p: Player, img: ImageDims) -> bool {
    let bc = e.bullet.dest_rect;
    let b0 = e.bullet.sprite.frames@[0];
    let pc = p.dest_rect;
    let p0 = p.sprite_alive.frames@[0];
    let bullet_v = smul(b0.h * img.h, bc.h as int);
    let bullet_w = smul(b0.w * img.w, bc.w as int);
    let player_w = smul(p0.w * img.w, pc.w as int);
    &&& e.bullet.in_air
    &&& bc.y >= pc.y
    &&& bc.y + bullet_v >= pc.y
    &&& {
        ||| (bc.x + HIT_MARGIN_FRONT >= pc.x && bc.x + HIT_MARGIN_FRONT <= pc.x + player_w
            - HIT_MARGIN_BACK)
        ||| (bc.x + bullet_w >= pc.x && bc.x + bullet_w <= pc.x + player_w - HIT_MARGIN_BACK)
    }
}

impl Enemy {
    pub open spec fn wf(self) -> bool {
        &&& self.sprite_alive.wf()
        &&& self.sprite_death.wf()
        &&& self.bullet.wf()
        &&& self.dest_rect.wf()
    }

    /// A fresh enemy: alive, projectile loaded at its own rectangle.
    pub fn new(sprite_alive: Sprite, sprite_death: Sprite, bullet_sprite: Sprite, dest_rect: Rect)
        -> (e: Enemy)
        requires
            sprite_alive.wf(),
            sprite_death.wf(),
            bullet_sprite.wf(),
            dest_rect.wf(),
        ensures
            e == (Enemy {
                sprite_alive,
                sprite_death,
                bullet: Bullet { sprite: bullet_sprite, dest_rect, in_air: false },
                dest_rect,
                is_alive: true,
                death_animation_drawn: false,
            }),
            e.wf(),
    {
        Enemy {
            sprite_alive,
            sprite_death,
            bullet: Bullet { sprite: bullet_sprite, dest_rect, in_air: false },
            dest_rect,
            is_alive: true,
            death_animation_drawn: false,
        }
    }

    /// Send the projectile on its way. Admission control (never firing a
    /// projectile already in flight) is the formation's job, not this one's.
    pub fn shoot(&mut self)
        ensures
            *final(self) == (Enemy { bullet: Bullet { in_air: true, ..old(self).bullet }, ..*old(
                self,
            ) }),
    {
        self.bullet.set_in_air(true);
    }

    /// One tick of this enemy's projectile: advance and retire past the
    /// bottom edge while in flight, else track the living owner.
    pub fn update(&mut self, speed_y: i64, screen_height: i64, scaled: bool)
        requires
            old(self).wf(),
            0 <= speed_y <= crate::geom::DELTA_LIMIT,
        ensures
            *final(self) == (Enemy {
                bullet: bullet_after_enemy_update(
                    *old(self),
                    speed_y as int,
                    screen_height as int,
                    scaled,
                ),
                ..*old(self)
            }),
            final(self).wf(),
    {
        if self.bullet.in_air() {
            self.bullet.translate(Point { x: 0, y: speed_y }, scaled);
            if self.bullet.get_coords().y > screen_height {
                self.bullet.set_in_air(false);
            }
        } else {
            if self.is_alive {
                let pos = Point { x: self.dest_rect.x, y: self.dest_rect.y };
                self.bullet.set_bullet_coords(pos);
            }
        }
    }

    pub fn get_coords(&self) -> (p: Point)
        ensures
            p == (Point { x: self.dest_rect.x, y: self.dest_rect.y }),
    {
        Point { x: self.dest_rect.x, y: self.dest_rect.y }
    }

    /// Move the body rectangle; `scaled` multiplies the displacement by the
    /// rectangle's own scale factors.
    pub fn translate(&mut self, offset: Point, scaled: bool)
        requires
            old(self).wf(),
            -crate::geom::DELTA_LIMIT <= offset.x <= crate::geom::DELTA_LIMIT,
            -crate::geom::DELTA_LIMIT <= offset.y <= crate::geom::DELTA_LIMIT,
        ensures
            *final(self) == (Enemy {
                dest_rect: old(self).dest_rect.spec_translated(
                    offset.x as int,
                    offset.y as int,
                    scaled,
                ),
                ..*old(self)
            }),
            final(self).wf(),
    {
        self.dest_rect.translate(offset, scaled);
    }

    pub fn set_dest_rect(&mut self, rect: Rect)
        requires
            rect.wf(),
        ensures
            *final(self) == (Enemy { dest_rect: rect, ..*old(self) }),
    {
        self.dest_rect = rect;
    }

    /// One-way transition to not-alive.
    pub fn die(&mut self)
        ensures
            *final(self) == (Enemy { is_alive: false, ..*old(self) }),
    {
        self.is_alive = false;
    }

    /// Record that the one-shot death frame has been presented.
    pub fn mark_death_frame_drawn(&mut self)
        ensures
            *final(self) == (Enemy { death_animation_drawn: true, ..*old(self) }),
    {
        self.death_animation_drawn = true;
    }

    pub fn get_frame_dimensions(&self) -> (r: Result<FrameSize, GameError>)
        ensures
            self.sprite_alive.frames@.len() >= 1 <==> r is Ok,
            r is Ok ==> r->Ok_0 == (FrameSize {
                h: self.sprite_alive.frames@[0].h,
                w: self.sprite_alive.frames@[0].w,
            }),
    {
        self.sprite_alive.get_frame_dimensions(0)
    }

    pub fn get_death_frame_drawn(&self) -> (r: bool)
        ensures
            r == self.death_animation_drawn,
    {
        self.death_animation_drawn
    }

    pub fn is_alive(&self) -> (r: bool)
        ensures
            r == self.is_alive,
    {
        self.is_alive
    }

    /// The scale pair collision formulas use: vertical first (`h`), then
    /// horizontal (`w`).
    pub fn get_scale(&self) -> (p: Point)
        ensures
            p == (Point { x: self.dest_rect.h, y: self.dest_rect.w }),
    {
        Point { x: self.dest_rect.h, y: self.dest_rect.w }
    }

    pub fn set_bullet_in_air(&mut self, in_air: bool)
        ensures
            *final(self) == (Enemy { bullet: Bullet { in_air, ..old(self).bullet }, ..*old(
                self,
            ) }),
    {
        self.bullet.set_in_air(in_air);
    }

    pub fn is_bullet_in_air(&self) -> (r: bool)
        ensures
            r == self.bullet.in_air,
    {
        self.bullet.in_air()
    }

    /// Whether this enemy's in-flight projectile currently hits the player.
    pub fn bullet_collision_with_player(&self, player: &Player, img: ImageDims) -> (r: bool)
        requires
            self.wf(),
            player.wf(),
            img.wf(),
        ensures
            r == spec_enemy_bullet_hits_player(*self, *player, img),
    {
        if !self.bullet.in_air() {
            return false;
        }
        let bc = self.bullet.dest_rect;
        let b0 = self.bullet.sprite.base_size();
        let pc = player.dest_rect;
        let p0 = player.sprite_alive.base_size();
        let bullet_v = scaled_dim(b0.h, img.h, bc.h);
        let bullet_w = scaled_dim(b0.w, img.w, bc.w);
        let player_w = scaled_dim(p0.w, img.w, pc.w);
        if bc.y >= pc.y && bc.y + bullet_v >= pc.y {
            if (bc.x + HIT_MARGIN_FRONT >= pc.x && bc.x + HIT_MARGIN_FRONT <= pc.x + player_w
                - HIT_MARGIN_BACK) || (bc.x + bullet_w >= pc.x && bc.x + bullet_w <= pc.x
                + player_w - HIT_MARGIN_BACK) {
                return true;
            }
        }
        false
    }
}

} // verus!
