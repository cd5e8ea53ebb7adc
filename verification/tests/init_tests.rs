use space_invaders::geom::{ImageDims, Point};
use space_invaders::init::{init_enemies, init_player};
use space_invaders::state::State;

fn img() -> ImageDims {
    ImageDims { h: 1000, w: 1000 }
}

#[test]
fn player_spawns_near_middle_above_bottom() {
    let p = init_player(Point { x: 1000, y: 1000 }, 1_920_000, 1_080_000, img());
    // 1920000 * 10 / 22 minus half the rendered width of 160 units.
    assert_eq!(p.dest_rect.x, 872_727 - 80_000);
    // One 10-unit gap above the bottom, under a 100-unit tall sprite.
    assert_eq!(p.dest_rect.y, 1_080_000 - 110_000);
    assert_eq!(p.dest_rect.w, 1000);
    assert_eq!(p.dest_rect.h, 1000);
    assert!(p.is_alive());
    assert_eq!(p.get_lives(), 3);
    assert!(!p.bullet.in_air());
    // The projectile spawns at half the ship's scale.
    assert_eq!(p.bullet.dest_rect.w, 500);
    assert_eq!(p.bullet.dest_rect.h, 500);
}

#[test]
fn formation_spawns_three_rows_in_row_major_order() {
    let enemies = init_enemies(7, Point { x: 550, y: 550 }, 1_920_000, 1_080_000, img());
    assert_eq!(enemies.len(), 21);
    for e in enemies.iter() {
        assert!(e.is_alive());
        assert!(!e.is_bullet_in_air());
        assert!(!e.get_death_frame_drawn());
    }
    // Columns step right by one rendered width: 0.25 * 1000px * 0.55.
    let step_x = 137_500;
    assert_eq!(enemies[0].get_coords().x, 640_000);
    assert_eq!(enemies[1].get_coords().x, 640_000 + step_x);
    assert_eq!(enemies[6].get_coords().x, 640_000 + 6 * step_x);
    // Row starts repeat the same columns.
    assert_eq!(enemies[7].get_coords().x, 640_000);
    assert_eq!(enemies[14].get_coords().x, 640_000);
    // Rows descend from 1/12 of the screen.
    let row_h = 120_000;
    let half_scaled_row = 33_000;
    assert_eq!(enemies[0].get_coords().y, 90_000);
    assert_eq!(enemies[7].get_coords().y, 90_000 + row_h + half_scaled_row);
    assert_eq!(enemies[14].get_coords().y, 90_000 + 2 * row_h + 2 * half_scaled_row);
}

#[test]
fn middle_row_carries_the_other_animation() {
    let enemies = init_enemies(7, Point { x: 550, y: 550 }, 1_920_000, 1_080_000, img());
    assert_eq!(enemies[0].sprite_alive.frames[0].y, 0);
    assert_eq!(enemies[7].sprite_alive.frames[0].y, 175);
    assert_eq!(enemies[14].sprite_alive.frames[0].y, 0);
    assert_eq!(enemies[0].sprite_alive.frames.len(), 2);
}

#[test]
fn initialized_session_accepts_the_formation() {
    let enemies = init_enemies(7, Point { x: 550, y: 550 }, 1_920_000, 1_080_000, img());
    let player = init_player(Point { x: 1000, y: 1000 }, 1_920_000, 1_080_000, img());
    let s = State::new(21, enemies, player);
    assert_eq!(s.num_enemies_on_row, 7);
    assert_eq!(s.enemy_direction, 1);
}
