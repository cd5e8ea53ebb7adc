use space_invaders::geom::{scaled_dim, COORD_LIMIT, Point, Rect};

#[test]
fn unscaled_translate_is_verbatim() {
    let mut r = Rect { x: 1000, y: 2000, w: 550, h: 550 };
    r.translate(Point { x: 2000, y: -500 }, false);
    assert_eq!(r, Rect { x: 3000, y: 1500, w: 550, h: 550 });
}

#[test]
fn scaled_translate_multiplies_by_scale() {
    // 2.0 units scaled by 0.55 move 1.1 units.
    let mut r = Rect { x: 0, y: 0, w: 550, h: 550 };
    r.translate(Point { x: 2000, y: 0 }, true);
    assert_eq!(r.x, 1100);
    assert_eq!(r.y, 0);
}

#[test]
fn scaled_translate_negative_rounds_toward_zero() {
    // -9.0 units scaled by 0.5 move -4.5 units.
    let mut r = Rect { x: 0, y: 0, w: 500, h: 500 };
    r.translate(Point { x: 0, y: -9000 }, true);
    assert_eq!(r.y, -4500);
}

#[test]
fn coordinates_saturate_at_the_band_edge() {
    let mut r = Rect { x: COORD_LIMIT, y: -COORD_LIMIT, w: 1000, h: 1000 };
    r.translate(Point { x: 1, y: -1 }, false);
    assert_eq!(r.x, COORD_LIMIT);
    assert_eq!(r.y, -COORD_LIMIT);
}

#[test]
fn scaled_dim_is_fraction_of_sheet_times_scale() {
    // 0.12 of a 1000-pixel sheet at scale 0.55: 66.0 units.
    assert_eq!(scaled_dim(120, 1000, 550), 66_000);
    assert_eq!(scaled_dim(0, 1000, 550), 0);
    assert_eq!(scaled_dim(250, 1000, 1000), 250_000);
}
