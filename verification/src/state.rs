//! The world state: the player, the enemy formation, and the per-tick
//! update pipeline with its movement, collision and firing policies.

use vstd::prelude::*;
use rand::Rng;
use crate::bullet::Bullet;
use crate::enemy::Enemy;
use crate::enemy::bullet_after_enemy_update;
use crate::enemy::spec_enemy_bullet_hits_player;
use crate::geom::ImageDims;
use crate::geom::Point;
use crate::geom::Rect;
use crate::geom::smul;
use crate::player::Player;
use crate::player::bullet_after_player_update;
use crate::player::spec_lose_life;
use crate::player::spec_player_bullet_hits_enemy;

verus! {

/// The formation always holds this many rows.
pub const NUM_ROWS: u8 = 3;
/// Screen width in fixed-point units (1920.0).
pub const WINDOW_SIZE_WIDTH: i64 = 1_920_000;
/// Screen height in fixed-point units (1080.0).
pub const WINDOW_SIZE_HEIGHT: i64 = 1_080_000;
/// Nominal per-tick speed of the player's projectile (9.0 units).
pub const PLAYER_BULLET_SPEED: i64 = 9_000;
/// Nominal per-tick speed of an enemy projectile (6.0 units).
pub const ENEMY_BULLET_SPEED: i64 = 6_000;
/// Fresh sessions march the formation at this nominal speed.
pub const INITIAL_ENEMY_SPEED: u8 = 2;

/// One game session: the player, the formation in row-major order, and the
/// formation-movement parameters, owned here so that sessions never leak
/// state into one another.
pub struct State {
    pub enemies: Vec<Enemy>,
    pub player: Player,
    pub num_enemies: u8,
    pub num_enemies_on_row: u8,
    pub enemy_direction: i8,
    pub enemy_speed: u8,
}

/// Whether the formation has reached a horizontal screen bound: the first
/// enemy of the leading row crossed the left edge, or the last one's right
/// edge (its rendered width included) crossed the right edge.
pub open spec fn formation_at_boundary(s: State, screen_width: int, img: ImageDims) -> bool {
    let first = s.enemies@[0];
    let last = s.enemies@[s.num_enemies_on_row - 1];
    let last_extent = smul(last.sprite_alive.frames@[0].w * img.w, last.dest_rect.w as int);
    first.dest_rect.x < 0 || last.dest_rect.x + last_extent > screen_width
}

/// An enemy after one formation-movement step: a one-sprite-height descent
/// when the boundary tripped, then the horizontal march by `dir * speed`.
pub open spec fn spec_enemy_after_move(
    e: Enemy,
    flipped: bool,
    dir: int,
    speed: int,
    img: ImageDims,
    scaled: bool,
) -> Enemy {
    let dropped = if flipped {
        e.dest_rect.spec_translated(0, e.sprite_alive.frames@[0].h * img.h, scaled)
    } else {
        e.dest_rect
    };
    Enemy { dest_rect: dropped.spec_translated(dir * speed * 1000, 0, scaled), ..e }
}

/// Whether a requested horizontal move would push either player edge
/// outside `[0, screen_width]`; such a request is dropped entirely.
pub open spec fn player_move_blocked(p: Player, x: int, screen_width: int, img: ImageDims) -> bool {
    let extent = smul(p.sprite_alive.frames@[0].w * img.w, p.dest_rect.w as int);
    p.dest_rect.x + x < 0 || p.dest_rect.x + extent + x >= screen_width
}

/// The player after a horizontal move request: unchanged when blocked,
/// translated otherwise.
pub open spec fn spec_player_after_move(
    p: Player,
    x: int,
    screen_width: int,
    img: ImageDims,
    scaled: bool,
) -> Player {
    if player_move_blocked(p, x, screen_width, img) {
        p
    } else {
        Player { dest_rect: p.dest_rect.spec_translated(x, 0, scaled), ..p }
    }
}

/// Enemy `i` is alive and overlapped by the player's in-flight projectile.
pub open spec fn player_hit_at(s: State, img: ImageDims, i: int) -> bool {
    s.enemies@[i].is_alive && spec_player_bullet_hits_enemy(s.player, s.enemies@[i], img)
}

/// Some alive enemy is overlapped by the player's in-flight projectile.
pub open spec fn some_enemy_hit_by_player(s: State, img: ImageDims) -> bool {
    exists|i: int| 0 <= i < s.enemies@.len() && #[trigger] player_hit_at(s, img, i)
}

/// Enemy `i`'s in-flight projectile overlaps the player.
pub open spec fn enemy_hit_player_at(s: State, img: ImageDims, i: int) -> bool {
    spec_enemy_bullet_hits_player(s.enemies@[i], s.player, img)
}

/// Some enemy projectile overlaps the player.
pub open spec fn player_hit_by_enemy(s: State, img: ImageDims) -> bool {
    exists|i: int| 0 <= i < s.enemies@.len() && #[trigger] enemy_hit_player_at(s, img, i)
}

/// Some alive enemy's projectile is in flight: the admission-control guard
/// under which the formation holds all further fire.
pub open spec fn any_alive_bullet_in_air(s: Seq<Enemy>) -> bool {
    exists|i: int| 0 <= i < s.len() && (#[trigger] s[i]).is_alive && s[i].bullet.in_air
}

/// How many enemies of the sequence are alive.
pub open spec fn alive_count(s: Seq<Enemy>) -> nat
    decreases s.len(),
{
    if s.len() == 0 {
        0
    } else {
        alive_count(s.drop_last()) + (if s.last().is_alive {
            1nat
        } else {
            0nat
        })
    }
}

pub proof fn lemma_alive_count_le_len(s: Seq<Enemy>)
    ensures
        alive_count(s) <= s.len(),
    decreases s.len(),
{
    if s.len() > 0 {
        lemma_alive_count_le_len(s.drop_last());
    }
}

/// How many firing attempts a volley makes, and the only formation indices
/// it ever draws.
pub open spec fn volley_size(alive: nat) -> nat {
    if alive > 20 {
        5
    } else {
        3
    }
}

/// `b` is `a` with at most its projectile's flight flag changed.
pub open spec fn same_but_bullet_flag(a: Enemy, b: Enemy) -> bool {
    b == (Enemy { bullet: Bullet { in_air: b.bullet.in_air, ..a.bullet }, ..a })
}

/// The enemy with its projectile sent on its way.
pub open spec fn spec_fired(e: Enemy) -> Enemy {
    Enemy { bullet: Bullet { in_air: true, ..e.bullet }, ..e }
}

/// Relies on rand::Rng::gen_range over rand::thread_rng: a uniform draw
/// from `[0, bound)`; it panics only on an empty range, ruled out here.
#[verifier::external_body]
fn random_below(bound: u16) -> (r: u16)
    requires
        bound >= 1,
    ensures
        r < bound,
{
    rand::thread_rng().gen_range(0..bound)
}

/// A hit always retires the player's projectile, and with the projectile
/// retired no enemy can be hit: resolving the player's shot a second time
/// in the same tick, with no new projectile in flight, reports no hit.
pub proof fn lemma_retired_projectile_hits_no_enemy(s: State, img: ImageDims)
    requires
        !s.player.bullet.in_air,
    ensures
        !some_enemy_hit_by_player(s, img),
{
    assert forall|i: int| 0 <= i < s.enemies@.len() implies !player_hit_at(s, img, i) by {
        assert(!spec_player_bullet_hits_enemy(s.player, s.enemies@[i], img));
    }
}

impl State {
    pub open spec fn wf(self) -> bool {
        &&& self.player.wf()
        &&& forall|i: int| 0 <= i < self.enemies@.len() ==> self.enemies@[i].wf()
        &&& 1 <= self.num_enemies_on_row <= self.enemies@.len()
        &&& (self.enemy_direction == 1 || self.enemy_direction == -1)
    }

    /// Open a session: the formation marches rightward at the initial
    /// speed, with `num_enemies / NUM_ROWS` enemies on each row.
    pub fn new(num_enemies: u8, enemies: Vec<Enemy>, player: Player) -> (s: State)
        requires
            num_enemies / NUM_ROWS >= 1,
            enemies@.len() >= num_enemies / NUM_ROWS,
            forall|i: int| 0 <= i < enemies@.len() ==> enemies@[i].wf(),
            player.wf(),
        ensures
            s.enemies@ == enemies@,
            s.player == player,
            s.num_enemies == num_enemies,
            s.num_enemies_on_row == num_enemies / NUM_ROWS,
            s.enemy_direction == 1,
            s.enemy_speed == INITIAL_ENEMY_SPEED,
            s.wf(),
    {
        State {
            enemies,
            player,
            num_enemies,
            num_enemies_on_row: num_enemies / NUM_ROWS,
            enemy_direction: 1,
            enemy_speed: INITIAL_ENEMY_SPEED,
        }
    }

    pub fn all_enemies_dead(&self) -> (r: bool)
        ensures
            r == (forall|i: int| 0 <= i < self.enemies@.len() ==> !self.enemies@[i].is_alive),
    {
        let n = self.enemies.len();
        for i in 0..n
            invariant
                n == self.enemies@.len(),
                forall|j: int| 0 <= j < i ==> !self.enemies@[j].is_alive,
        {
            if self.enemies[i].is_alive() {
                return false;
            }
        }
        true
    }

    pub fn revive_player(&mut self, position: Point)
        ensures
            final(self).player == (Player {
                is_alive: true,
                lives: crate::player::PLAYER_NUM_LIVES,
                dest_rect: Rect {
                    x: position.x,
                    y: position.y,
                    w: old(self).player.dest_rect.w,
                    h: old(self).player.dest_rect.h,
                },
                ..old(self).player
            }),
            final(self).enemies@ == old(self).enemies@,
            final(self).num_enemies == old(self).num_enemies,
            final(self).num_enemies_on_row == old(self).num_enemies_on_row,
            final(self).enemy_direction == old(self).enemy_direction,
            final(self).enemy_speed == old(self).enemy_speed,
    {
        self.player.revive(position);
    }

    /// Formation movement: flip direction and descend one step when a
    /// screen bound was reached, then march every enemy horizontally. The
    /// reversal is formation-wide: the direction flips exactly once and
    /// every enemy descends in the same call.
    pub fn move_enemies(&mut self, screen_width: i64, scaled: bool, img: ImageDims)
        requires
            old(self).wf(),
            img.wf(),
        ensures
            final(self).enemy_direction == (if formation_at_boundary(
                *old(self),
                screen_width as int,
                img,
            ) {
                -old(self).enemy_direction as int
            } else {
                old(self).enemy_direction as int
            }),
            final(self).enemies@.len() == old(self).enemies@.len(),
            forall|i: int|
                0 <= i < old(self).enemies@.len() ==> final(self).enemies@[i]
                    == spec_enemy_after_move(
                    old(self).enemies@[i],
                    formation_at_boundary(*old(self), screen_width as int, img),
                    final(self).enemy_direction as int,
                    old(self).enemy_speed as int,
                    img,
                    scaled,
                ),
            final(self).player == old(self).player,
            final(self).num_enemies == old(self).num_enemies,
            final(self).num_enemies_on_row == old(self).num_enemies_on_row,
            final(self).enemy_speed == old(self).enemy_speed,
            final(self).wf(),
    {
        let ghost pre = *self;
        let first_x = self.enemies[0].dest_rect.x;
        let last_i = (self.num_enemies_on_row - 1) as usize;
        let last = &self.enemies[last_i];
        let last_extent = crate::geom::scaled_dim(
            last.sprite_alive.frames[0].w,
            img.w,
            last.dest_rect.w,
        );
        let last_x = last.dest_rect.x;
        let flipped = first_x < 0 || last_x + last_extent > screen_width;
        assert(flipped == formation_at_boundary(pre, screen_width as int, img));

        if flipped {
            self.enemy_direction = -self.enemy_direction;
            let n = self.enemies.len();
            for i in 0..n
                invariant
                    img.wf(),
                    n == self.enemies@.len() == pre.enemies@.len(),
                    forall|j: int| 0 <= j < n ==> self.enemies@[j].wf(),
                    forall|j: int|
                        0 <= j < i ==> self.enemies@[j] == (Enemy {
                            dest_rect: pre.enemies@[j].dest_rect.spec_translated(
                                0,
                                pre.enemies@[j].sprite_alive.frames@[0].h * img.h,
                                scaled,
                            ),
                            ..pre.enemies@[j]
                        }),
                    forall|j: int| i <= j < n ==> self.enemies@[j] == pre.enemies@[j],
                    self.player == pre.player,
                    self.num_enemies == pre.num_enemies,
                    self.num_enemies_on_row == pre.num_enemies_on_row,
                    self.enemy_speed == pre.enemy_speed,
                    self.enemy_direction == -pre.enemy_direction,
            {
                let fh = self.enemies[i].sprite_alive.frames[0].h;
                assert(0 <= fh * img.h <= 1_000_000_000int) by (nonlinear_arith)
                    requires
                        0 <= fh <= 1000,
                        0 <= img.h <= 1_000_000,
                ;
                let step = fh * img.h;
                self.enemies[i].translate(Point { x: 0, y: step }, scaled);
            }
        }

        let dir_speed: i64 = if self.enemy_direction == 1 {
            (self.enemy_speed as i64) * 1000
        } else {
            -((self.enemy_speed as i64) * 1000)
        };
        assert(dir_speed == self.enemy_direction as int * self.enemy_speed as int * 1000)
            by (nonlinear_arith)
            requires
                self.enemy_direction == 1 || self.enemy_direction == -1,
                dir_speed == (if self.enemy_direction == 1 {
                    self.enemy_speed as int * 1000
                } else {
                    -(self.enemy_speed as int * 1000)
                }),
        ;
        let ghost mid = *self;
        let n = self.enemies.len();
        for i in 0..n
            invariant
                n == self.enemies@.len() == mid.enemies@.len(),
                forall|j: int| 0 <= j < n ==> self.enemies@[j].wf(),
                forall|j: int|
                    0 <= j < i ==> self.enemies@[j] == (Enemy {
                        dest_rect: mid.enemies@[j].dest_rect.spec_translated(
                            dir_speed as int,
                            0,
                            scaled,
                        ),
                        ..mid.enemies@[j]
                    }),
                forall|j: int| i <= j < n ==> self.enemies@[j] == mid.enemies@[j],
                self.player == mid.player,
                self.num_enemies == mid.num_enemies,
                self.num_enemies_on_row == mid.num_enemies_on_row,
                self.enemy_speed == mid.enemy_speed,
                self.enemy_direction == mid.enemy_direction,
                -300_000 <= dir_speed <= 300_000,
        {
            self.enemies[i].translate(Point { x: dir_speed, y: 0 }, scaled);
        }
        proof {
            assert(forall|i: int|
                0 <= i < pre.enemies@.len() ==> self.enemies@[i] == spec_enemy_after_move(
                    pre.enemies@[i],
                    formation_at_boundary(pre, screen_width as int, img),
                    self.enemy_direction as int,
                    pre.enemy_speed as int,
                    img,
                    scaled,
                ));
        }
    }

    /// Resolve the player's shot: the first alive enemy in formation order
    /// overlapped by the player's in-flight projectile dies, and the
    /// projectile retires. At most one enemy dies per call.
    pub fn check_if_player_shot_enemy(&mut self, img: ImageDims) -> (r: bool)
        requires
            old(self).wf(),
            img.wf(),
        ensures
            r == some_enemy_hit_by_player(*old(self), img),
            !r ==> *final(self) == *old(self),
            r ==> exists|i: int|
                0 <= i < old(self).enemies@.len() && #[trigger] player_hit_at(*old(self), img, i)
                    && (forall|j: int| 0 <= j < i ==> !player_hit_at(*old(self), img, j))
                    && final(self).enemies@ == old(self).enemies@.update(
                    i,
                    Enemy { is_alive: false, ..old(self).enemies@[i] },
                ) && final(self).player == (Player {
                    bullet: Bullet { in_air: false, ..old(self).player.bullet },
                    ..old(self).player
                }),
            final(self).num_enemies == old(self).num_enemies,
            final(self).num_enemies_on_row == old(self).num_enemies_on_row,
            final(self).enemy_direction == old(self).enemy_direction,
            final(self).enemy_speed == old(self).enemy_speed,
            final(self).enemies@.len() == old(self).enemies@.len(),
            final(self).wf(),
    {
        let ghost pre = *self;
        let n = self.enemies.len();
        for i in 0..n
            invariant
                *self == pre,
                pre == *old(self),
                pre.wf(),
                img.wf(),
                n == pre.enemies@.len(),
                forall|j: int| 0 <= j < i ==> !player_hit_at(pre, img, j),
        {
            if self.enemies[i].is_alive() {
                if self.player.bullet_collision_with_enemy(&self.enemies[i], img) {
                    self.player.set_bullet_in_air(false);
                    self.enemies[i].die();
                    proof {
                        assert(player_hit_at(pre, img, i as int));
                    }
                    return true;
                }
            }
        }
        false
    }

    /// Resolve enemy fire: the first enemy in formation order whose
    /// in-flight projectile overlaps the player costs the player one life,
    /// and that projectile retires.
    pub fn check_if_enemy_shot_player(&mut self, img: ImageDims) -> (r: bool)
        requires
            old(self).wf(),
            img.wf(),
            player_hit_by_enemy(*old(self), img) ==> old(self).player.lives >= 1,
        ensures
            r == player_hit_by_enemy(*old(self), img),
            !r ==> *final(self) == *old(self),
            r ==> exists|i: int|
                0 <= i < old(self).enemies@.len() && #[trigger] enemy_hit_player_at(
                    *old(self),
                    img,
                    i,
                ) && (forall|j: int| 0 <= j < i ==> !enemy_hit_player_at(*old(self), img, j))
                    && final(self).enemies@ == old(self).enemies@.update(
                    i,
                    Enemy {
                        bullet: Bullet { in_air: false, ..old(self).enemies@[i].bullet },
                        ..old(self).enemies@[i]
                    },
                ) && final(self).player == spec_lose_life(old(self).player),
            final(self).num_enemies == old(self).num_enemies,
            final(self).num_enemies_on_row == old(self).num_enemies_on_row,
            final(self).enemy_direction == old(self).enemy_direction,
            final(self).enemy_speed == old(self).enemy_speed,
            final(self).enemies@.len() == old(self).enemies@.len(),
            final(self).wf(),
    {
        let ghost pre = *self;
        let n = self.enemies.len();
        for i in 0..n
            invariant
                *self == pre,
                pre == *old(self),
                pre.wf(),
                img.wf(),
                n == pre.enemies@.len(),
                player_hit_by_enemy(pre, img) ==> pre.player.lives >= 1,
                forall|j: int| 0 <= j < i ==> !enemy_hit_player_at(pre, img, j),
        {
            if self.enemies[i].bullet_collision_with_player(&self.player, img) {
                proof {
                    assert(enemy_hit_player_at(pre, img, i as int));
                }
                self.player.lose_life();
                self.enemies[i].set_bullet_in_air(false);
                return true;
            }
        }
        false
    }

    /// Enemy firing policy, arbitrated by the world as the single authority.
    /// If any alive enemy's projectile is in flight, nothing fires. With no
    /// alive enemy, nothing fires. With at most five alive, every alive
    /// enemy fires. Otherwise a volley of `volley_size` pseudo-random draws
    /// from the leading formation indices fires, with one retry per slot;
    /// projectiles already in flight are never re-fired, and no enemy
    /// outside the first `volley_size` slots is touched.
    pub fn enemies_shoot(&mut self)
        requires
            old(self).wf(),
        ensures
            final(self).player == old(self).player,
            final(self).num_enemies == old(self).num_enemies,
            final(self).num_enemies_on_row == old(self).num_enemies_on_row,
            final(self).enemy_direction == old(self).enemy_direction,
            final(self).enemy_speed == old(self).enemy_speed,
            final(self).enemies@.len() == old(self).enemies@.len(),
            forall|i: int|
                0 <= i < old(self).enemies@.len() ==> same_but_bullet_flag(
                    old(self).enemies@[i],
                    #[trigger] final(self).enemies@[i],
                ),
            forall|i: int|
                0 <= i < old(self).enemies@.len() && old(self).enemies@[i].bullet.in_air
                    ==> (#[trigger] final(self).enemies@[i]).bullet.in_air,
            any_alive_bullet_in_air(old(self).enemies@) ==> final(self).enemies@ == old(
                self,
            ).enemies@,
            !any_alive_bullet_in_air(old(self).enemies@) && alive_count(old(self).enemies@) == 0
                ==> final(self).enemies@ == old(self).enemies@,
            !any_alive_bullet_in_air(old(self).enemies@) && 1 <= alive_count(old(self).enemies@)
                <= 5 ==> forall|i: int|
                0 <= i < old(self).enemies@.len() ==> #[trigger] final(self).enemies@[i] == (
                if old(self).enemies@[i].is_alive {
                    spec_fired(old(self).enemies@[i])
                } else {
                    old(self).enemies@[i]
                }),
            !any_alive_bullet_in_air(old(self).enemies@) && alive_count(old(self).enemies@) > 5
                ==> forall|i: int|
                0 <= i < old(self).enemies@.len() && (#[trigger] final(self).enemies@[i]).bullet.in_air
                    ==> (old(self).enemies@[i].bullet.in_air || i < volley_size(
                    alive_count(old(self).enemies@),
                ) as int),
            final(self).wf(),
    {
        let ghost pre = *self;
        let n = self.enemies.len();
        for i in 0..n
            invariant
                *self == pre,
                pre == *old(self),
                pre.wf(),
                n == pre.enemies@.len(),
                forall|j: int|
                    0 <= j < i ==> !((#[trigger] pre.enemies@[j]).is_alive
                        && pre.enemies@[j].bullet.in_air),
        {
            if self.enemies[i].is_alive() && self.enemies[i].is_bullet_in_air() {
                proof {
                    assert(any_alive_bullet_in_air(pre.enemies@));
                }
                return ;
            }
        }
        assert(!any_alive_bullet_in_air(pre.enemies@));

        let mut alive: usize = 0;
        for i in 0..n
            invariant
                *self == pre,
                pre == *old(self),
                pre.wf(),
                n == pre.enemies@.len(),
                alive == alive_count(pre.enemies@.take(i as int)),
                alive <= i,
        {
            proof {
                assert(pre.enemies@.take(i as int + 1).drop_last() =~= pre.enemies@.take(i as int));
            }
            if self.enemies[i].is_alive() {
                alive = alive + 1;
            }
        }
        proof {
            assert(pre.enemies@.take(n as int) =~= pre.enemies@);
        }
        assert(alive == alive_count(pre.enemies@));

        if alive == 0 {
            return ;
        }

        if alive <= 5 {
            for i in 0..n
                invariant
                    pre == *old(self),
                    pre.wf(),
                    n == self.enemies@.len() == pre.enemies@.len(),
                    forall|j: int| 0 <= j < n ==> (#[trigger] self.enemies@[j]).wf(),
                    forall|j: int|
                        0 <= j < i ==> #[trigger] self.enemies@[j] == (if pre.enemies@[j].is_alive {
                            spec_fired(pre.enemies@[j])
                        } else {
                            pre.enemies@[j]
                        }),
                    forall|j: int| i <= j < n ==> self.enemies@[j] == pre.enemies@[j],
                    self.player == pre.player,
                    self.num_enemies == pre.num_enemies,
                    self.num_enemies_on_row == pre.num_enemies_on_row,
                    self.enemy_direction == pre.enemy_direction,
                    self.enemy_speed == pre.enemy_speed,
            {
                if self.enemies[i].is_alive() {
                    self.enemies[i].shoot();
                }
            }
            return ;
        }

        proof {
            lemma_alive_count_le_len(pre.enemies@);
        }
        let volley: u16 = if alive > 20 {
            5
        } else {
            3
        };
        assert(volley as nat == volley_size(alive_count(pre.enemies@)));
        assert(5 < n);

        let mut k: u16 = 0;
        while k < volley
            invariant
                pre == *old(self),
                pre.wf(),
                1 <= volley <= 5,
                5 < n,
                n == self.enemies@.len() == pre.enemies@.len(),
                forall|j: int| 0 <= j < n ==> (#[trigger] self.enemies@[j]).wf(),
                forall|j: int|
                    0 <= j < n ==> same_but_bullet_flag(
                        pre.enemies@[j],
                        #[trigger] self.enemies@[j],
                    ),
                forall|j: int|
                    0 <= j < n && pre.enemies@[j].bullet.in_air ==> (#[trigger] self.enemies@[j]).bullet.in_air,
                forall|j: int|
                    0 <= j < n && (#[trigger] self.enemies@[j]).bullet.in_air ==> (
                    pre.enemies@[j].bullet.in_air || j < volley as int),
                self.player == pre.player,
                self.num_enemies == pre.num_enemies,
                self.num_enemies_on_row == pre.num_enemies_on_row,
                self.enemy_direction == pre.enemy_direction,
                self.enemy_speed == pre.enemy_speed,
            decreases volley - k,
        {
            let idx = random_below(volley) as usize;
            if self.enemies[idx].is_bullet_in_air() {
                let idx2 = random_below(volley) as usize;
                if !self.enemies[idx2].is_bullet_in_air() {
                    self.enemies[idx2].shoot();
                }
            } else {
                self.enemies[idx].shoot();
            }
            k = k + 1;
        }
    }

    /// One tick of the whole pipeline, in order: advance the player's
    /// projectile, advance every enemy projectile, run formation movement,
    /// then apply the player's horizontal move request.
    pub fn update(&mut self, x: i64, img: ImageDims, scaled: bool)
        requires
            old(self).wf(),
            img.wf(),
            -crate::geom::DELTA_LIMIT <= x <= crate::geom::DELTA_LIMIT,
        ensures
            final(self).enemy_direction == (if formation_at_boundary(
                *old(self),
                WINDOW_SIZE_WIDTH as int,
                img,
            ) {
                -old(self).enemy_direction as int
            } else {
                old(self).enemy_direction as int
            }),
            final(self).enemies@.len() == old(self).enemies@.len(),
            forall|i: int|
                0 <= i < old(self).enemies@.len() ==> #[trigger] final(self).enemies@[i]
                    == spec_enemy_after_move(
                    Enemy {
                        bullet: bullet_after_enemy_update(
                            old(self).enemies@[i],
                            ENEMY_BULLET_SPEED as int,
                            WINDOW_SIZE_HEIGHT as int,
                            scaled,
                        ),
                        ..old(self).enemies@[i]
                    },
                    formation_at_boundary(*old(self), WINDOW_SIZE_WIDTH as int, img),
                    final(self).enemy_direction as int,
                    old(self).enemy_speed as int,
                    img,
                    scaled,
                ),
            final(self).player == spec_player_after_move(
                Player {
                    bullet: bullet_after_player_update(
                        old(self).player,
                        PLAYER_BULLET_SPEED as int,
                        scaled,
                    ),
                    ..old(self).player
                },
                x as int,
                WINDOW_SIZE_WIDTH as int,
                img,
                scaled,
            ),
            final(self).num_enemies == old(self).num_enemies,
            final(self).num_enemies_on_row == old(self).num_enemies_on_row,
            final(self).enemy_speed == old(self).enemy_speed,
            final(self).wf(),
    {
        let ghost pre = *self;
        self.player.update(PLAYER_BULLET_SPEED, scaled);
        let n = self.enemies.len();
        for i in 0..n
            invariant
                pre == *old(self),
                pre.wf(),
                n == self.enemies@.len() == pre.enemies@.len(),
                forall|j: int| 0 <= j < n ==> (#[trigger] self.enemies@[j]).wf(),
                forall|j: int|
                    0 <= j < i ==> #[trigger] self.enemies@[j] == (Enemy {
                        bullet: bullet_after_enemy_update(
                            pre.enemies@[j],
                            ENEMY_BULLET_SPEED as int,
                            WINDOW_SIZE_HEIGHT as int,
                            scaled,
                        ),
                        ..pre.enemies@[j]
                    }),
                forall|j: int| i <= j < n ==> self.enemies@[j] == pre.enemies@[j],
                self.player == (Player {
                    bullet: bullet_after_player_update(
                        pre.player,
                        PLAYER_BULLET_SPEED as int,
                        scaled,
                    ),
                    ..pre.player
                }),
                self.player.wf(),
                self.num_enemies == pre.num_enemies,
                self.num_enemies_on_row == pre.num_enemies_on_row,
                self.enemy_direction == pre.enemy_direction,
                self.enemy_speed == pre.enemy_speed,
        {
            self.enemies[i].update(ENEMY_BULLET_SPEED, WINDOW_SIZE_HEIGHT, scaled);
        }
        let ghost mid = *self;
        proof {
            assert(formation_at_boundary(mid, WINDOW_SIZE_WIDTH as int, img)
                == formation_at_boundary(pre, WINDOW_SIZE_WIDTH as int, img));
        }
        self.move_enemies(WINDOW_SIZE_WIDTH, scaled, img);
        self.move_player(x, WINDOW_SIZE_WIDTH, img, scaled);
    }

    pub fn set_enemies(&mut self, enemies: Vec<Enemy>)
        requires
            old(self).wf(),
            forall|i: int| 0 <= i < enemies@.len() ==> enemies@[i].wf(),
            enemies@.len() >= old(self).num_enemies_on_row,
        ensures
            final(self).enemies@ == enemies@,
            final(self).player == old(self).player,
            final(self).num_enemies == old(self).num_enemies,
            final(self).num_enemies_on_row == old(self).num_enemies_on_row,
            final(self).enemy_direction == old(self).enemy_direction,
            final(self).enemy_speed == old(self).enemy_speed,
            final(self).wf(),
    {
        self.enemies = enemies;
    }

    pub fn player_shoot(&mut self)
        ensures
            final(self).player == (Player {
                bullet: Bullet { in_air: true, ..old(self).player.bullet },
                ..old(self).player
            }),
            final(self).enemies@ == old(self).enemies@,
            final(self).num_enemies == old(self).num_enemies,
            final(self).num_enemies_on_row == old(self).num_enemies_on_row,
            final(self).enemy_direction == old(self).enemy_direction,
            final(self).enemy_speed == old(self).enemy_speed,
    {
        self.player.shoot();
    }

    pub fn is_player_alive(&self) -> (r: bool)
        ensures
            r == self.player.is_alive,
    {
        self.player.is_alive()
    }

    pub fn get_player_lives(&self) -> (r: u8)
        ensures
            r == self.player.lives,
    {
        self.player.get_lives()
    }

    pub fn get_enemies(&self) -> (r: &Vec<Enemy>)
        ensures
            r@ == self.enemies@,
    {
        &self.enemies
    }

    /// Horizontal player movement: a request that would cross either screen
    /// bound is dropped entirely; otherwise it is applied.
    pub fn move_player(&mut self, x: i64, screen_width: i64, img: ImageDims, scaled: bool)
        requires
            old(self).wf(),
            img.wf(),
            -crate::geom::DELTA_LIMIT <= x <= crate::geom::DELTA_LIMIT,
        ensures
            final(self).player == spec_player_after_move(
                old(self).player,
                x as int,
                screen_width as int,
                img,
                scaled,
            ),
            final(self).enemies@ == old(self).enemies@,
            final(self).num_enemies == old(self).num_enemies,
            final(self).num_enemies_on_row == old(self).num_enemies_on_row,
            final(self).enemy_direction == old(self).enemy_direction,
            final(self).enemy_speed == old(self).enemy_speed,
            final(self).wf(),
    {
        let px = self.player.dest_rect.x;
        let extent = crate::geom::scaled_dim(
            self.player.sprite_alive.frames[0].w,
            img.w,
            self.player.dest_rect.w,
        );
        if px + x < 0 || px + extent + x >= screen_width {
            return ;
        }
        self.player.translate(Point { x, y: 0 }, scaled);
    }
}

/// Flip the formation's horizontal direction.
pub fn set_enemy_direction_right(state: &mut State)
    requires
        old(state).enemy_direction == 1 || old(state).enemy_direction == -1,
    ensures
        final(state).enemy_direction == -old(state).enemy_direction,
        final(state).enemies@ == old(state).enemies@,
        final(state).player == old(state).player,
        final(state).num_enemies == old(state).num_enemies,
        final(state).num_enemies_on_row == old(state).num_enemies_on_row,
        final(state).enemy_speed == old(state).enemy_speed,
{
    state.enemy_direction = -state.enemy_direction;
}

/// Put the formation back to the initial nominal marching speed.
pub fn reset_enemy_movement_speed(state: &mut State)
    ensures
        final(state).enemy_speed == INITIAL_ENEMY_SPEED,
        final(state).enemies@ == old(state).enemies@,
        final(state).player == old(state).player,
        final(state).num_enemies == old(state).num_enemies,
        final(state).num_enemies_on_row == old(state).num_enemies_on_row,
        final(state).enemy_direction == old(state).enemy_direction,
{
    state.enemy_speed = INITIAL_ENEMY_SPEED;
}

/// Raise the formation's marching speed by `speed`.
pub fn increase_enemy_movement_speed(state: &mut State, speed: u8)
    requires
        old(state).enemy_speed + speed <= u8::MAX,
    ensures
        final(state).enemy_speed == old(state).enemy_speed + speed,
        final(state).enemies@ == old(state).enemies@,
        final(state).player == old(state).player,
        final(state).num_enemies == old(state).num_enemies,
        final(state).num_enemies_on_row == old(state).num_enemies_on_row,
        final(state).enemy_direction == old(state).enemy_direction,
{
    state.enemy_speed = state.enemy_speed + speed;
}

} // verus!

