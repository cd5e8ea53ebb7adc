//! The player's ship: a rectangle with alive state, a remaining-lives
//! counter, and an attached projectile that fires upward.

use vstd::prelude::*;
use crate::bullet::Bullet;
use crate::enemy::Enemy;
use crate::enemy::HIT_MARGIN_BACK;
use crate::enemy::HIT_MARGIN_FRONT;
use crate::geom::ImageDims;
use crate::geom::Point;
use crate::geom::Rect;
use crate::geom::scaled_dim;
use crate::geom::smul;
use crate::geom::wide_smul;
use crate::sprite::FrameSize;
use crate::sprite::GameError;
use crate::sprite::Sprite;

verus! {

/// The lives a fresh or revived player holds.
pub const PLAYER_NUM_LIVES: u8 = 3;

/// The player's ship.
#[derive(Clone, PartialEq, Eq, Debug)]
pub struct Player {
    pub sprite_alive: Sprite,
    pub sprite_death: Sprite,
    pub bullet: Bullet,
    pub dest_rect: Rect,
    pub is_alive: bool,
    pub lives: u8,
}

/// The player's projectile after one tick: while in flight it advances by
/// `speed_y` upward and retires once above the top edge; otherwise it is
/// parked at its living owner's position.
pub open spec fn bullet_after_player_update(p: Player, speed_y: int, scaled: bool) -> Bullet {
    if p.bullet.in_air {
        let moved = p.bullet.dest_rect.spec_translated(0, -speed_y, scaled);
        Bullet { sprite: p.bullet.sprite, dest_rect: moved, in_air: moved.y >= 0 }
    } else if p.is_alive {
        Bullet {
            sprite: p.bullet.sprite,
            dest_rect: Rect {
                x: p.dest_rect.x,
                y: p.dest_rect.y,
                w: p.bullet.dest_rect.w,
                h: p.bullet.dest_rect.h,
            },
            in_air: false,
        }
    } else {
        p.bullet
    }
}

/// One life lost: the counter drops by one; reaching zero kills the player.
pub open spec fn spec_lose_life(p: Player) -> Player {
    Player {
        lives: (p.lives - 1) as u8,
        is_alive: if p.lives == 1 {
            false
        } else {
            p.is_alive
        },
        ..p
    }
}

/// Lives deplete one at a time: from a fresh player, the first two losses
/// leave the ship alive, and exactly the third kills it.
pub proof fn lemma_lives_deplete_on_third_loss(p: Player)
    requires
        p.is_alive,
        p.lives == PLAYER_NUM_LIVES,
    ensures
        spec_lose_life(p).is_alive,
        spec_lose_life(spec_lose_life(p)).is_alive,
        !spec_lose_life(spec_lose_life(spec_lose_life(p))).is_alive,
{
}

/// Whether the player's in-flight projectile overlaps this enemy. The test
/// is asymmetric by design: the vertical check compares the projectile's
/// top against the enemy's rendered bottom edge, and weighs the
/// projectile's top by its own rendered extent.
pub open spec fn spec_player_bullet_hits_enemy(p: Player, e: Enemy, img: ImageDims) -> bool {
    let bc = p.bullet.dest_rect;
    let b0 = p.bullet.sprite.frames@[0];
    let ec = e.dest_rect;
    let e0 = e.sprite_alive.frames@[0];
    let bullet_v = smul(b0.h * img.h, bc.h as int);
    let bullet_w = smul(b0.w * img.w, bc.w as int);
    let enemy_v = smul(e0.h * img.h, ec.h as int);
    let enemy_w = smul(e0.w * img.w, ec.w as int);
    &&& p.bullet.in_air
    &&& bc.y <= ec.y + enemy_v
    &&& smul(bc.y as int, bullet_v) >= ec.y + enemy_v
    &&& {
        ||| (bc.x + HIT_MARGIN_FRONT >= ec.x && bc.x + HIT_MARGIN_FRONT <= ec.x + enemy_w
            - HIT_MARGIN_BACK)
        ||| (bc.x + bullet_w >= ec.x && bc.x + bullet_w <= ec.x + enemy_w - HIT_MARGIN_BACK)
    }
}

impl Player {
    pub open spec fn wf(self) -> bool {
        &&& self.sprite_alive.wf()
        &&& self.sprite_death.wf()
        &&& self.bullet.wf()
        &&& self.dest_rect.wf()
    }

    /// A fresh player: alive with full lives; its projectile is loaded at
    /// the ship's rectangle at half the ship's scale.
    pub fn new(sprite_alive: Sprite, sprite_death: Sprite, bullet_sprite: Sprite, dest_rect: Rect)
        -> (p: Player)
        requires
            sprite_alive.wf(),
            sprite_death.wf(),
            bullet_sprite.wf(),
            dest_rect.wf(),
        ensures
            p == (Player {
                sprite_alive,
                sprite_death,
                bullet: Bullet {
                    sprite: bullet_sprite,
                    dest_rect: Rect {
                        x: dest_rect.x,
                        y: dest_rect.y,
                        w: (dest_rect.w / 2) as i64,
                        h: (dest_rect.h / 2) as i64,
                    },
                    in_air: false,
                },
                dest_rect,
                is_alive: true,
                lives: PLAYER_NUM_LIVES,
            }),
            p.wf(),
    {
        let bw: i64 = ((dest_rect.w as u64) / 2) as i64;
        let bh: i64 = ((dest_rect.h as u64) / 2) as i64;
        Player {
            sprite_alive,
            sprite_death,
            bullet: Bullet {
                sprite: bullet_sprite,
                dest_rect: Rect { x: dest_rect.x, y: dest_rect.y, w: bw, h: bh },
                in_air: false,
            },
            dest_rect,
            is_alive: true,
            lives: PLAYER_NUM_LIVES,
        }
    }

    /// Send the projectile on its way. Callers must not fire one already in
    /// flight; the policy sits with the world, not here.
    pub fn shoot(&mut self)
        ensures
            *final(self) == (Player { bullet: Bullet { in_air: true, ..old(self).bullet }, ..*old(
                self,
            ) }),
    {
        self.bullet.set_in_air(true);
    }

    /// One tick of the player's projectile: advance upward and retire past
    /// the top edge while in flight, else track the living owner.
    pub fn update(&mut self, speed_y: i64, scaled: bool)
        requires
            old(self).wf(),
            0 <= speed_y <= crate::geom::DELTA_LIMIT,
        ensures
            *final(self) == (Player {
                bullet: bullet_after_player_update(*old(self), speed_y as int, scaled),
                ..*old(self)
            }),
            final(self).wf(),
    {
        if self.bullet.in_air() {
            self.bullet.translate(Point { x: 0, y: -speed_y }, scaled);
            if self.bullet.get_coords().y < 0 {
                self.bullet.set_in_air(false);
            }
        } else {
            if self.is_alive {
                let pos = Point { x: self.dest_rect.x, y: self.dest_rect.y };
                self.bullet.set_bullet_coords(pos);
            }
        }
    }

    pub fn is_alive(&self) -> (r: bool)
        ensures
            r == self.is_alive,
    {
        self.is_alive
    }

    pub fn get_coords(&self) -> (p: Point)
        ensures
            p == (Point { x: self.dest_rect.x, y: self.dest_rect.y }),
    {
        Point { x: self.dest_rect.x, y: self.dest_rect.y }
    }

    /// Move the body rectangle; `scaled` multiplies the displacement by the
    /// rectangle's own scale factors.
    pub fn translate(&mut self, offset: Point, scaled: bool)
        requires
            old(self).wf(),
            -crate::geom::DELTA_LIMIT <= offset.x <= crate::geom::DELTA_LIMIT,
            -crate::geom::DELTA_LIMIT <= offset.y <= crate::geom::DELTA_LIMIT,
        ensures
            *final(self) == (Player {
                dest_rect: old(self).dest_rect.spec_translated(
                    offset.x as int,
                    offset.y as int,
                    scaled,
                ),
                ..*old(self)
            }),
            final(self).wf(),
    {
        self.dest_rect.translate(offset, scaled);
    }

    pub fn get_lives(&self) -> (r: u8)
        ensures
            r == self.lives,
    {
        self.lives
    }

    /// The scale pair collision formulas use: vertical first (`h`), then
    /// horizontal (`w`).
    pub fn get_scale(&self) -> (p: Point)
        ensures
            p == (Point { x: self.dest_rect.h, y: self.dest_rect.w }),
    {
        Point { x: self.dest_rect.h, y: self.dest_rect.w }
    }

    /// One-way transition to not-alive.
    pub fn die(&mut self)
        ensures
            *final(self) == (Player { is_alive: false, ..*old(self) }),
    {
        self.is_alive = false;
    }

    pub fn get_frame_dimensions(&self) -> (r: Result<FrameSize, GameError>)
        ensures
            self.sprite_alive.frames@.len() >= 1 <==> r is Ok,
            r is Ok ==> r->Ok_0 == (FrameSize {
                h: self.sprite_alive.frames@[0].h,
                w: self.sprite_alive.frames@[0].w,
            }),
    {
        self.sprite_alive.get_frame_dimensions(0)
    }

    /// Whether the player's in-flight projectile currently hits this enemy.
    pub fn bullet_collision_with_enemy(&self, enemy: &Enemy, img: ImageDims) -> (r: bool)
        requires
            self.wf(),
            enemy.wf(),
            img.wf(),
        ensures
            r == spec_player_bullet_hits_enemy(*self, *enemy, img),
    {
        if !self.bullet.in_air() {
            return false;
        }
        let bc = self.bullet.dest_rect;
        let b0 = self.bullet.sprite.base_size();
        let ec = enemy.dest_rect;
        let e0 = enemy.sprite_alive.base_size();
        let bullet_v = scaled_dim(b0.h, img.h, bc.h);
        let bullet_w = scaled_dim(b0.w, img.w, bc.w);
        let enemy_v = scaled_dim(e0.h, img.h, ec.h);
        let enemy_w = scaled_dim(e0.w, img.w, ec.w);
        let weighted_top: i128 = wide_smul(bc.y, bullet_v);
        if bc.y <= ec.y + enemy_v && weighted_top >= (ec.y + enemy_v) as i128 {
            if (bc.x + HIT_MARGIN_FRONT >= ec.x && bc.x + HIT_MARGIN_FRONT <= ec.x + enemy_w
                - HIT_MARGIN_BACK) || (bc.x + bullet_w >= ec.x && bc.x + bullet_w <= ec.x + enemy_w
                - HIT_MARGIN_BACK) {
                return true;
            }
        }
        false
    }

    pub fn set_bullet_in_air(&mut self, in_air: bool)
        ensures
            *final(self) == (Player { bullet: Bullet { in_air, ..old(self).bullet }, ..*old(
                self,
            ) }),
    {
        self.bullet.set_in_air(in_air);
    }

    /// Lose one life; depleting the counter kills the player. A call with
    /// no life left is a programming error, ruled out up front.
    pub fn lose_life(&mut self)
        requires
            old(self).lives >= 1,
        ensures
            *final(self) == spec_lose_life(*old(self)),
    {
        self.lives = self.lives - 1;
        if self.lives == 0 {
            self.die();
        }
    }

    /// Reset to a fresh, alive player at the given spawn point.
    pub fn revive(&mut self, position: Point)
        ensures
            *final(self) == (Player {
                is_alive: true,
                lives: PLAYER_NUM_LIVES,
                dest_rect: Rect {
                    x: position.x,
                    y: position.y,
                    w: old(self).dest_rect.w,
                    h: old(self).dest_rect.h,
                },
                ..*old(self)
            }),
    {
        self.is_alive = true;
        self.lives = PLAYER_NUM_LIVES;
        self.dest_rect.x = position.x;
        self.dest_rect.y = position.y;
    }
}

} // verus!
