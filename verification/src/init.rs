//! Session layout: where a fresh player and a fresh enemy formation stand,
//! and which sprite-sheet regions animate them.

use vstd::prelude::*;
use crate::enemy::Enemy;
use crate::geom::ImageDims;
use crate::geom::Point;
use crate::geom::Rect;
use crate::geom::sat;
use crate::geom::sat_coord;
use crate::geom::scaled_dim;
use crate::geom::smul;
use crate::player::Player;
use crate::sprite::Frame;
use crate::sprite::Sprite;

verus! {

/// Width fraction of an enemy frame (0.25 of the sheet).
pub const ENEMY_FRAME_W: i64 = 250;
/// Height fraction of an enemy frame (0.12 of the sheet).
pub const ENEMY_FRAME_H: i64 = 120;
/// Width fraction of the player frame (0.16 of the sheet).
pub const PLAYER_FRAME_W: i64 = 160;
/// Height fraction of the player frame (0.1 of the sheet).
pub const PLAYER_FRAME_H: i64 = 100;
/// Vertical gap kept under the player's spawn row (10.0 units).
pub const PLAYER_BOTTOM_GAP: i64 = 10_000;
/// Largest accepted formation row width.
pub const MAX_ROW_WIDTH: u32 = 10_000;

/// The alive animation of the outer formation rows.
pub open spec fn enemy_top_frames() -> Seq<Frame> {
    seq![
        Frame { x: 0, y: 0, w: ENEMY_FRAME_W, h: ENEMY_FRAME_H },
        Frame { x: 250, y: 0, w: ENEMY_FRAME_W, h: ENEMY_FRAME_H },
    ]
}

/// The alive animation of the middle formation row.
pub open spec fn enemy_mid_frames() -> Seq<Frame> {
    seq![
        Frame { x: 0, y: 175, w: ENEMY_FRAME_W, h: ENEMY_FRAME_H },
        Frame { x: 250, y: 175, w: ENEMY_FRAME_W, h: ENEMY_FRAME_H },
    ]
}

/// The one-frame enemy death animation.
pub open spec fn enemy_death_frames() -> Seq<Frame> {
    seq![Frame { x: 620, y: 900, w: 200, h: 120 }]
}

/// The one-frame projectile animation, shared by every combatant.
pub open spec fn bullet_frames() -> Seq<Frame> {
    seq![Frame { x: 830, y: 550, w: 150, h: 120 }]
}

/// The one-frame player alive animation.
pub open spec fn player_frames() -> Seq<Frame> {
    seq![Frame { x: 250, y: 900, w: PLAYER_FRAME_W, h: PLAYER_FRAME_H }]
}

/// The one-frame player death animation.
pub open spec fn player_death_frames() -> Seq<Frame> {
    seq![Frame { x: 400, y: 900, w: 190, h: 120 }]
}

/// Where the player spawns: horizontally near the middle (at 1/2.2 of the
/// screen, less half its rendered width), and one gap above the bottom.
pub open spec fn player_start_rect(scale: Point, sw: int, sh: int, img: ImageDims) -> Rect {
    Rect {
        x: sat(sw * 10 / 22 - smul(PLAYER_FRAME_W * img.w, scale.x as int) / 2) as i64,
        y: sat(sh - (smul(PLAYER_FRAME_H * img.h, scale.y as int) + PLAYER_BOTTOM_GAP)) as i64,
        w: scale.x,
        h: scale.y,
    }
}

/// Where formation slot `(row, col)` spawns: rows descend from 1/12 of the
/// screen by one rendered sprite height plus half a scaled one per row, and
/// columns step right by one rendered sprite width from 1/3 of the screen.
pub open spec fn enemy_start_rect(row: int, col: int, scale: Point, sw: int, sh: int, img: ImageDims) -> Rect {
    Rect {
        x: sat(sw / 3 + col * smul(ENEMY_FRAME_W * img.w, scale.x as int)) as i64,
        y: sat(
            sh / 12 + row * (ENEMY_FRAME_H * img.h) + (row * smul(
                ENEMY_FRAME_H * img.h,
                scale.y as int,
            )) / 2,
        ) as i64,
        w: scale.x,
        h: scale.y,
    }
}

/// The alive animation a formation row carries: the outer rows share one
/// pattern, the middle row the other.
pub open spec fn row_frames(row: int) -> Seq<Frame> {
    if row == 1 {
        enemy_mid_frames()
    } else {
        enemy_top_frames()
    }
}

fn sprite_of_one(f: Frame) -> (s: Sprite)
    requires
        f.wf(),
    ensures
        s.frames@ == seq![f],
        s.wf(),
{
    let mut v: Vec<Frame> = Vec::new();
    v.push(f);
    proof {
        assert(v@ =~= seq![f]);
    }
    Sprite::new(v)
}

fn sprite_of_two(f0: Frame, f1: Frame) -> (s: Sprite)
    requires
        f0.wf(),
        f1.wf(),
    ensures
        s.frames@ == seq![f0, f1],
        s.wf(),
{
    let mut v: Vec<Frame> = Vec::new();
    v.push(f0);
    v.push(f1);
    proof {
        assert(v@ =~= seq![f0, f1]);
    }
    Sprite::new(v)
}

/// A fresh player at its spawn rectangle, with its sheet regions.
pub fn init_player(scale: Point, screen_width: i64, screen_height: i64, img: ImageDims) -> (p: Player)
    requires
        0 <= scale.x <= crate::geom::SCALE_LIMIT,
        0 <= scale.y <= crate::geom::SCALE_LIMIT,
        0 <= screen_width <= crate::geom::COORD_LIMIT,
        0 <= screen_height <= crate::geom::COORD_LIMIT,
        img.wf(),
    ensures
        p.sprite_alive.frames@ == player_frames(),
        p.sprite_death.frames@ == player_death_frames(),
        p.bullet.sprite.frames@ == bullet_frames(),
        p.bullet.in_air == false,
        p.dest_rect == player_start_rect(scale, screen_width as int, screen_height as int, img),
        p.bullet.dest_rect == (Rect {
            x: p.dest_rect.x,
            y: p.dest_rect.y,
            w: (scale.x / 2) as i64,
            h: (scale.y / 2) as i64,
        }),
        p.is_alive,
        p.lives == crate::player::PLAYER_NUM_LIVES,
        p.wf(),
{
    let alive = sprite_of_one(Frame { x: 250, y: 900, w: PLAYER_FRAME_W, h: PLAYER_FRAME_H });
    let death = sprite_of_one(Frame { x: 400, y: 900, w: 190, h: 120 });
    let bullet = sprite_of_one(Frame { x: 830, y: 550, w: 150, h: 120 });
    let near_middle: i64 = (((screen_width as u64) * 10) / 22) as i64;
    let width_ext = scaled_dim(PLAYER_FRAME_W, img.w, scale.x);
    let half_width: i64 = ((width_ext as u64) / 2) as i64;
    let x = sat_coord(near_middle - half_width);
    let height_ext = scaled_dim(PLAYER_FRAME_H, img.h, scale.y);
    let y = sat_coord(screen_height - (height_ext + PLAYER_BOTTOM_GAP));
    Player::new(alive, death, bullet, Rect { x, y, w: scale.x, h: scale.y })
}

/// A fresh formation in row-major order: `NUM_ROWS` rows of
/// `num_enemies_on_row` enemies, each alive with a loaded projectile.
pub fn init_enemies(
    num_enemies_on_row: u32,
    scale: Point,
    screen_width: i64,
    screen_height: i64,
    img: ImageDims,
) -> (r: Vec<Enemy>)
    requires
        1 <= num_enemies_on_row <= MAX_ROW_WIDTH,
        0 <= scale.x <= crate::geom::SCALE_LIMIT,
        0 <= scale.y <= crate::geom::SCALE_LIMIT,
        0 <= screen_width <= crate::geom::COORD_LIMIT,
        0 <= screen_height <= crate::geom::COORD_LIMIT,
        img.wf(),
    ensures
        r@.len() == 3 * num_enemies_on_row,
        forall|k: int|
            0 <= k < r@.len() ==> {
                let row = k / (num_enemies_on_row as int);
                let col = k % (num_enemies_on_row as int);
                &&& (#[trigger] r@[k]).sprite_alive.frames@ == row_frames(row)
                &&& r@[k].sprite_death.frames@ == enemy_death_frames()
                &&& r@[k].bullet.sprite.frames@ == bullet_frames()
                &&& r@[k].bullet.in_air == false
                &&& r@[k].dest_rect == enemy_start_rect(
                    row,
                    col,
                    scale,
                    screen_width as int,
                    screen_height as int,
                    img,
                )
                &&& r@[k].bullet.dest_rect == r@[k].dest_rect
                &&& r@[k].is_alive
                &&& !r@[k].death_animation_drawn
            },
        forall|k: int| 0 <= k < r@.len() ==> (#[trigger] r@[k]).wf(),
{
    let mut enemies: Vec<Enemy> = Vec::new();
    let third: i64 = ((screen_width as u64) / 3) as i64;
    let twelfth: i64 = ((screen_height as u64) / 12) as i64;
    let n = num_enemies_on_row as usize;
    proof {
        assert(0int * (n as int) == 0) by (nonlinear_arith);
    }
    for row in 0..3usize
        invariant
            1 <= n <= MAX_ROW_WIDTH,
            n == num_enemies_on_row,
            0 <= scale.x <= crate::geom::SCALE_LIMIT,
            0 <= scale.y <= crate::geom::SCALE_LIMIT,
            0 <= screen_width <= crate::geom::COORD_LIMIT,
            0 <= screen_height <= crate::geom::COORD_LIMIT,
            img.wf(),
            third == screen_width as int / 3,
            twelfth == screen_height as int / 12,
            enemies@.len() == row * n,
            forall|k: int|
                0 <= k < enemies@.len() ==> {
                    let rw = k / (n as int);
                    let cl = k % (n as int);
                    &&& (#[trigger] enemies@[k]).sprite_alive.frames@ == row_frames(rw)
                    &&& enemies@[k].sprite_death.frames@ == enemy_death_frames()
                    &&& enemies@[k].bullet.sprite.frames@ == bullet_frames()
                    &&& enemies@[k].bullet.in_air == false
                    &&& enemies@[k].dest_rect == enemy_start_rect(
                        rw,
                        cl,
                        scale,
                        screen_width as int,
                        screen_height as int,
                        img,
                    )
                    &&& enemies@[k].bullet.dest_rect == enemies@[k].dest_rect
                    &&& enemies@[k].is_alive
                    &&& !enemies@[k].death_animation_drawn
                },
            forall|k: int| 0 <= k < enemies@.len() ==> (#[trigger] enemies@[k]).wf(),
    {
        for col in 0..n
            invariant
                1 <= n <= MAX_ROW_WIDTH,
                n == num_enemies_on_row,
                row < 3,
                0 <= scale.x <= crate::geom::SCALE_LIMIT,
                0 <= scale.y <= crate::geom::SCALE_LIMIT,
                0 <= screen_width <= crate::geom::COORD_LIMIT,
                0 <= screen_height <= crate::geom::COORD_LIMIT,
                img.wf(),
                third == screen_width as int / 3,
                twelfth == screen_height as int / 12,
                enemies@.len() == row * n + col,
                forall|k: int|
                    0 <= k < enemies@.len() ==> {
                        let rw = k / (n as int);
                        let cl = k % (n as int);
                        &&& (#[trigger] enemies@[k]).sprite_alive.frames@ == row_frames(rw)
                        &&& enemies@[k].sprite_death.frames@ == enemy_death_frames()
                        &&& enemies@[k].bullet.sprite.frames@ == bullet_frames()
                        &&& enemies@[k].bullet.in_air == false
                        &&& enemies@[k].dest_rect == enemy_start_rect(
                            rw,
                            cl,
                            scale,
                            screen_width as int,
                            screen_height as int,
                            img,
                        )
                        &&& enemies@[k].bullet.dest_rect == enemies@[k].dest_rect
                        &&& enemies@[k].is_alive
                        &&& !enemies@[k].death_animation_drawn
                    },
                forall|k: int| 0 <= k < enemies@.len() ==> (#[trigger] enemies@[k]).wf(),
        {
            let alive_sprite = if row == 1 {
                sprite_of_two(
                    Frame { x: 0, y: 175, w: ENEMY_FRAME_W, h: ENEMY_FRAME_H },
                    Frame { x: 250, y: 175, w: ENEMY_FRAME_W, h: ENEMY_FRAME_H },
                )
            } else {
                sprite_of_two(
                    Frame { x: 0, y: 0, w: ENEMY_FRAME_W, h: ENEMY_FRAME_H },
                    Frame { x: 250, y: 0, w: ENEMY_FRAME_W, h: ENEMY_FRAME_H },
                )
            };
            let death = sprite_of_one(Frame { x: 620, y: 900, w: 200, h: 120 });
            let bullet = sprite_of_one(Frame { x: 830, y: 550, w: 150, h: 120 });

            let width_ext = scaled_dim(ENEMY_FRAME_W, img.w, scale.x);
            assert(0 <= (col as int) * (width_ext as int) <= 20_000_000_000_000_000int)
                by (nonlinear_arith)
                requires
                    0 <= col <= 10_000,
                    0 <= width_ext <= 2_000_000_000_000,
            ;
            let col_off: i64 = (col as i64) * width_ext;
            let x = sat_coord(third + col_off);

            let drop_step: i64 = ENEMY_FRAME_H * img.h;
            let row_drop: i64 = (row as i64) * drop_step;
            let height_ext = scaled_dim(ENEMY_FRAME_H, img.h, scale.y);
            let half_drop: i64 = ((((row as i64) * height_ext) as u64) / 2) as i64;
            let y = sat_coord(twelfth + row_drop + half_drop);

            let e = Enemy::new(
                alive_sprite,
                death,
                bullet,
                Rect { x, y, w: scale.x, h: scale.y },
            );
            enemies.push(e);
            proof {
                let k = enemies@.len() - 1;
                assert(k == row * n + col);
                assert(k / (n as int) == row && k % (n as int) == col) by (nonlinear_arith)
                    requires
                        k == row * n + col,
                        0 <= col < n,
                        0 <= row,
                        n >= 1,
                ;
            }
        }
        proof {
            assert((row as int + 1) * (n as int) == row as int * (n as int) + n as int)
                by (nonlinear_arith);
        }
    }
    enemies
}

} // verus!
