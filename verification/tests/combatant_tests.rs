use space_invaders::bullet::Bullet;
use space_invaders::enemy::Enemy;
use space_invaders::geom::{ImageDims, Point, Rect};
use space_invaders::player::Player;
use space_invaders::sprite::{Frame, Sprite};

fn one_frame(x: i64, y: i64, w: i64, h: i64) -> Sprite {
    Sprite::new(vec![Frame { x, y, w, h }])
}

fn bullet_sprite() -> Sprite {
    one_frame(830, 550, 150, 120)
}

fn player_at(x: i64, y: i64) -> Player {
    Player::new(
        one_frame(250, 900, 160, 100),
        one_frame(400, 900, 190, 120),
        bullet_sprite(),
        Rect { x, y, w: 1000, h: 1000 },
    )
}

fn enemy_at(x: i64, y: i64) -> Enemy {
    Enemy::new(
        one_frame(0, 0, 250, 120),
        one_frame(620, 900, 200, 120),
        bullet_sprite(),
        Rect { x, y, w: 1000, h: 1000 },
    )
}

fn img() -> ImageDims {
    ImageDims { h: 1000, w: 1000 }
}

#[test]
fn bullet_starts_loaded_and_fires() {
    let mut b = Bullet::new(bullet_sprite(), Rect { x: 0, y: 0, w: 500, h: 500 });
    assert!(!b.in_air());
    b.set_in_air(true);
    assert!(b.in_air());
}

#[test]
fn bullet_scale_pair_is_vertical_then_horizontal() {
    let b = Bullet::new(bullet_sprite(), Rect { x: 0, y: 0, w: 300, h: 700 });
    assert_eq!(b.get_scale(), Point { x: 700, y: 300 });
}

#[test]
fn lives_deplete_exactly_on_third_loss() {
    let mut p = player_at(0, 0);
    assert_eq!(p.get_lives(), 3);
    p.lose_life();
    assert!(p.is_alive());
    assert_eq!(p.get_lives(), 2);
    p.lose_life();
    assert!(p.is_alive());
    assert_eq!(p.get_lives(), 1);
    p.lose_life();
    assert!(!p.is_alive());
    assert_eq!(p.get_lives(), 0);
}

#[test]
fn revive_restores_lives_and_position() {
    let mut p = player_at(0, 0);
    p.lose_life();
    p.lose_life();
    p.lose_life();
    p.revive(Point { x: 12_000, y: 34_000 });
    assert!(p.is_alive());
    assert_eq!(p.get_lives(), 3);
    assert_eq!(p.get_coords(), Point { x: 12_000, y: 34_000 });
}

#[test]
fn player_projectile_retires_past_top_edge() {
    // A projectile already at y = -1 must leave flight on the advance that
    // crosses the bound of 0.
    let mut p = player_at(500_000, 900_000);
    p.shoot();
    p.bullet.set_bullet_coords(Point { x: 500_000, y: -1 });
    assert!(p.bullet.in_air());
    p.update(9_000, false);
    assert!(!p.bullet.in_air());
    assert_eq!(p.bullet.get_coords().y, -9_001);
}

#[test]
fn player_projectile_stays_in_flight_above_bound() {
    let mut p = player_at(500_000, 900_000);
    p.shoot();
    p.bullet.set_bullet_coords(Point { x: 500_000, y: 50_000 });
    p.update(9_000, false);
    assert!(p.bullet.in_air());
    assert_eq!(p.bullet.get_coords().y, 41_000);
}

#[test]
fn parked_projectile_tracks_its_owner() {
    let mut p = player_at(100_000, 900_000);
    p.update(9_000, false);
    assert_eq!(p.bullet.get_coords(), Point { x: 100_000, y: 900_000 });
    p.translate(Point { x: 5_000, y: 0 }, false);
    p.update(9_000, false);
    assert_eq!(p.bullet.get_coords(), Point { x: 105_000, y: 900_000 });
}

#[test]
fn dead_owner_does_not_reposition_projectile() {
    let mut e = enemy_at(100_000, 50_000);
    e.die();
    e.translate(Point { x: 5_000, y: 0 }, false);
    e.update(6_000, 1_080_000, false);
    // The projectile stays where the enemy last stood before dying.
    assert_eq!(e.bullet.get_coords(), Point { x: 100_000, y: 50_000 });
}

#[test]
fn enemy_projectile_retires_past_bottom_edge() {
    let mut e = enemy_at(100_000, 50_000);
    e.shoot();
    e.bullet.set_bullet_coords(Point { x: 100_000, y: 1_079_000 });
    e.update(6_000, 1_080_000, false);
    assert!(!e.bullet.in_air());
    assert_eq!(e.bullet.get_coords().y, 1_085_000);
}

#[test]
fn enemy_projectile_hits_player_inside_margins() {
    let p = player_at(0, 100_000);
    let mut e = enemy_at(0, 0);
    e.shoot();
    e.bullet.set_bullet_coords(Point { x: 50_000, y: 100_000 });
    assert!(e.bullet_collision_with_player(&p, img()));
}

#[test]
fn enemy_projectile_misses_player_outside_horizontal_span() {
    let p = player_at(0, 100_000);
    let mut e = enemy_at(0, 0);
    e.shoot();
    // Player span shrunk by the trailing margin ends at 130_000.
    e.bullet.set_bullet_coords(Point { x: 500_000, y: 100_000 });
    assert!(!e.bullet_collision_with_player(&p, img()));
}

#[test]
fn retired_enemy_projectile_hits_nothing() {
    let p = player_at(0, 100_000);
    let mut e = enemy_at(0, 0);
    e.bullet.set_bullet_coords(Point { x: 50_000, y: 100_000 });
    assert!(!e.bullet_collision_with_player(&p, img()));
}

#[test]
fn player_projectile_hits_enemy() {
    let mut p = player_at(20_000, 900_000);
    let e = enemy_at(0, 50_000);
    p.shoot();
    p.bullet.set_bullet_coords(Point { x: 20_000, y: 100_000 });
    assert!(p.bullet_collision_with_enemy(&e, img()));
}

#[test]
fn retired_player_projectile_hits_nothing() {
    let mut p = player_at(20_000, 900_000);
    let e = enemy_at(0, 50_000);
    p.bullet.set_bullet_coords(Point { x: 20_000, y: 100_000 });
    assert!(!p.bullet_collision_with_enemy(&e, img()));
}

#[test]
fn death_frame_drawn_flag_is_one_shot() {
    let mut e = enemy_at(0, 0);
    assert!(!e.get_death_frame_drawn());
    e.die();
    assert!(!e.is_alive());
    e.mark_death_frame_drawn();
    assert!(e.get_death_frame_drawn());
}
