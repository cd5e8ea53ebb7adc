use space_invaders::enemy::Enemy;
use space_invaders::geom::{ImageDims, Point, Rect};
use space_invaders::player::Player;
use space_invaders::sprite::{Frame, Sprite};
use space_invaders::state::{
    increase_enemy_movement_speed, reset_enemy_movement_speed, set_enemy_direction_right, State,
};

fn one_frame(x: i64, y: i64, w: i64, h: i64) -> Sprite {
    Sprite::new(vec![Frame { x, y, w, h }])
}

fn bullet_sprite() -> Sprite {
    one_frame(830, 550, 150, 120)
}

fn player_at(x: i64, y: i64) -> Player {
    Player::new(
        one_frame(250, 900, 160, 100),
        one_frame(400, 900, 190, 120),
        bullet_sprite(),
        Rect { x, y, w: 1000, h: 1000 },
    )
}

fn enemy_at(x: i64, y: i64) -> Enemy {
    Enemy::new(
        one_frame(0, 0, 250, 120),
        one_frame(620, 900, 200, 120),
        bullet_sprite(),
        Rect { x, y, w: 1000, h: 1000 },
    )
}

fn img() -> ImageDims {
    ImageDims { h: 1000, w: 1000 }
}

fn formation(positions: &[(i64, i64)]) -> State {
    let enemies: Vec<Enemy> = positions.iter().map(|&(x, y)| enemy_at(x, y)).collect();
    let n = enemies.len() as u8;
    State::new(n, enemies, player_at(900_000, 950_000))
}

#[test]
fn new_session_resets_formation_parameters() {
    let s = formation(&[(100_000, 90_000), (400_000, 90_000), (700_000, 90_000)]);
    assert_eq!(s.enemy_direction, 1);
    assert_eq!(s.enemy_speed, 2);
    assert_eq!(s.num_enemies_on_row, 1);
    assert_eq!(s.num_enemies, 3);
}

#[test]
fn formation_reversal_is_atomic() {
    // The leading enemy sits past the left bound: the direction must flip
    // exactly once and every enemy must descend by exactly one sprite step.
    let mut s = formation(&[(-1, 90_000), (400_000, 90_000), (700_000, 90_000)]);
    s.move_enemies(1_920_000, false, img());
    assert_eq!(s.enemy_direction, -1);
    // One step down: frame height fraction 0.12 of a 1000-pixel sheet.
    let step = 120_000;
    let dx = -2_000;
    let e = s.get_enemies();
    assert_eq!(e[0].get_coords(), Point { x: -1 + dx, y: 90_000 + step });
    assert_eq!(e[1].get_coords(), Point { x: 400_000 + dx, y: 90_000 + step });
    assert_eq!(e[2].get_coords(), Point { x: 700_000 + dx, y: 90_000 + step });
}

#[test]
fn formation_marches_without_descending_inside_bounds() {
    let mut s = formation(&[(100_000, 90_000), (400_000, 90_000), (700_000, 90_000)]);
    s.move_enemies(1_920_000, false, img());
    assert_eq!(s.enemy_direction, 1);
    let e = s.get_enemies();
    assert_eq!(e[0].get_coords(), Point { x: 102_000, y: 90_000 });
    assert_eq!(e[1].get_coords(), Point { x: 402_000, y: 90_000 });
    assert_eq!(e[2].get_coords(), Point { x: 702_000, y: 90_000 });
}

#[test]
fn right_edge_reversal_accounts_for_rendered_width() {
    // Row width 1: the same enemy is leftmost and rightmost. Its right edge
    // is x + 0.25 * 1000px * scale 1.0 = x + 250 units.
    let mut s = formation(&[(1_700_000, 90_000), (1_500_000, 90_000), (1_300_000, 90_000)]);
    s.move_enemies(1_920_000, false, img());
    assert_eq!(s.enemy_direction, -1);
    let e = s.get_enemies();
    assert_eq!(e[0].get_coords(), Point { x: 1_700_000 - 2_000, y: 90_000 + 120_000 });
    assert_eq!(e[1].get_coords(), Point { x: 1_500_000 - 2_000, y: 90_000 + 120_000 });
    assert_eq!(e[2].get_coords(), Point { x: 1_300_000 - 2_000, y: 90_000 + 120_000 });
}

#[test]
fn player_move_is_rejected_at_the_left_wall() {
    let mut s = formation(&[(400_000, 90_000), (450_000, 90_000), (500_000, 90_000)]);
    s.revive_player(Point { x: 0, y: 950_000 });
    s.move_player(-1, 1_920_000, img(), false);
    assert_eq!(s.player.get_coords(), Point { x: 0, y: 950_000 });
}

#[test]
fn player_move_is_rejected_at_the_right_wall() {
    // Rendered player width: 0.16 * 1000px * 1.0 = 160 units.
    let mut s = formation(&[(400_000, 90_000), (450_000, 90_000), (500_000, 90_000)]);
    s.revive_player(Point { x: 1_760_000, y: 950_000 });
    s.move_player(1, 1_920_000, img(), false);
    assert_eq!(s.player.get_coords(), Point { x: 1_760_000, y: 950_000 });
}

#[test]
fn player_move_inside_bounds_applies_exactly() {
    let mut s = formation(&[(400_000, 90_000), (450_000, 90_000), (500_000, 90_000)]);
    s.revive_player(Point { x: 500_000, y: 950_000 });
    s.move_player(6_000, 1_920_000, img(), false);
    assert_eq!(s.player.get_coords(), Point { x: 506_000, y: 950_000 });
    s.move_player(-6_000, 1_920_000, img(), false);
    assert_eq!(s.player.get_coords(), Point { x: 500_000, y: 950_000 });
}

#[test]
fn player_shot_kills_first_overlapped_enemy_only() {
    // Two alive enemies overlap the player's projectile; only the first in
    // formation order dies, and the projectile retires.
    let mut s = formation(&[(0, 50_000), (10_000, 50_000), (900_000, 50_000)]);
    s.player_shoot();
    s.player.bullet.set_bullet_coords(Point { x: 20_000, y: 100_000 });
    assert!(s.check_if_player_shot_enemy(img()));
    let e = s.get_enemies();
    assert!(!e[0].is_alive());
    assert!(e[1].is_alive());
    assert!(e[2].is_alive());
    assert!(!s.player.bullet.in_air());
}

#[test]
fn second_resolution_without_new_shot_reports_no_hit() {
    let mut s = formation(&[(0, 50_000), (10_000, 50_000), (900_000, 50_000)]);
    s.player_shoot();
    s.player.bullet.set_bullet_coords(Point { x: 20_000, y: 100_000 });
    assert!(s.check_if_player_shot_enemy(img()));
    assert!(!s.check_if_player_shot_enemy(img()));
    let e = s.get_enemies();
    assert!(!e[0].is_alive());
    assert!(e[1].is_alive());
}

#[test]
fn enemy_shot_costs_the_player_one_life() {
    let mut s = formation(&[(0, 0), (400_000, 0), (800_000, 0)]);
    s.revive_player(Point { x: 0, y: 100_000 });
    s.enemies[0].shoot();
    s.enemies[0].bullet.set_bullet_coords(Point { x: 50_000, y: 100_000 });
    assert!(s.check_if_enemy_shot_player(img()));
    assert_eq!(s.get_player_lives(), 2);
    assert!(!s.get_enemies()[0].is_bullet_in_air());
}

#[test]
fn no_enemy_fires_while_one_projectile_is_in_flight() {
    // The formation-wide admission rule: an alive enemy's projectile in
    // flight holds all further fire.
    let mut positions = Vec::new();
    for row in 0..3 {
        for col in 0..7 {
            positions.push((100_000 + 50_000 * col, 90_000 + 130_000 * row));
        }
    }
    let mut s = formation(&positions);
    s.enemies[10].shoot();
    s.enemies_shoot();
    for (i, e) in s.get_enemies().iter().enumerate() {
        assert_eq!(e.is_bullet_in_air(), i == 10);
    }
}

#[test]
fn five_or_fewer_alive_enemies_all_fire() {
    let mut s = formation(&[(0, 0), (400_000, 0), (800_000, 0)]);
    s.enemies_shoot();
    for e in s.get_enemies().iter() {
        assert!(e.is_bullet_in_air());
    }
}

#[test]
fn no_alive_enemy_means_no_fire() {
    let mut s = formation(&[(0, 0), (400_000, 0), (800_000, 0)]);
    for i in 0..3 {
        s.enemies[i].die();
    }
    s.enemies_shoot();
    for e in s.get_enemies().iter() {
        assert!(!e.is_bullet_in_air());
    }
}

#[test]
fn large_formation_volley_draws_only_leading_slots() {
    // 21 alive enemies: the volley draws five slots from the first five
    // formation indices; nothing outside them is touched.
    let mut positions = Vec::new();
    for row in 0..3 {
        for col in 0..7 {
            positions.push((100_000 + 50_000 * col, 90_000 + 130_000 * row));
        }
    }
    let mut s = formation(&positions);
    s.enemies_shoot();
    let mut in_flight = 0;
    for (i, e) in s.get_enemies().iter().enumerate() {
        if e.is_bullet_in_air() {
            assert!(i < 5);
            in_flight += 1;
        }
    }
    assert!(in_flight <= 5);
}

#[test]
fn update_tracks_parked_player_projectile() {
    let mut s = formation(&[(400_000, 90_000), (450_000, 90_000), (500_000, 90_000)]);
    s.revive_player(Point { x: 640_000, y: 950_000 });
    s.update(0, img(), false);
    assert_eq!(s.player.bullet.get_coords(), Point { x: 640_000, y: 950_000 });
}

#[test]
fn all_enemies_dead_reports_formation_state() {
    let mut s = formation(&[(0, 0), (400_000, 0), (800_000, 0)]);
    assert!(!s.all_enemies_dead());
    s.enemies[0].die();
    s.enemies[1].die();
    assert!(!s.all_enemies_dead());
    s.enemies[2].die();
    assert!(s.all_enemies_dead());
}

#[test]
fn session_parameter_functions() {
    let mut s = formation(&[(400_000, 90_000), (450_000, 90_000), (500_000, 90_000)]);
    set_enemy_direction_right(&mut s);
    assert_eq!(s.enemy_direction, -1);
    set_enemy_direction_right(&mut s);
    assert_eq!(s.enemy_direction, 1);
    increase_enemy_movement_speed(&mut s, 3);
    assert_eq!(s.enemy_speed, 5);
    reset_enemy_movement_speed(&mut s);
    assert_eq!(s.enemy_speed, 2);
}
