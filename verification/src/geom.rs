//! Fixed-point screen geometry.
//!
//! Coordinates, scale factors and sprite-sheet fractions are all stored in
//! milli-units: the integer 1000 stands for 1.0. Scaled translation
//! multiplies a displacement by a rectangle's scale factor and divides by
//! `SCALE_BASE`, truncating toward zero. Coordinates saturate at
//! `COORD_LIMIT`, far outside any playfield.

use vstd::prelude::*;
use vstd::arithmetic::div_mod::lemma_div_is_ordered;

verus! {

/// 1000 fixed-point units stand for one screen unit.
pub const SCALE_BASE: i64 = 1000;
/// Coordinates are kept within `[-COORD_LIMIT, COORD_LIMIT]`.
pub const COORD_LIMIT: i64 = 1_000_000_000_000;
/// Largest per-tick displacement a translation accepts.
pub const DELTA_LIMIT: i64 = 2_000_000_000;
/// Largest scale factor a well-formed rectangle carries (1000.0).
pub const SCALE_LIMIT: i64 = 1_000_000;
/// Largest sprite-sheet side in pixels.
pub const IMG_LIMIT: i64 = 1_000_000;

/// Scaled product: `d * s / SCALE_BASE`, truncating toward zero
/// (sign-magnitude, so a negative `d` rounds toward zero as well).
pub open spec fn smul(d: int, s: int) -> int
    recommends
        s >= 0,
{
    if d >= 0 {
        (d * s) / (SCALE_BASE as int)
    } else {
        -(((-d) * s) / (SCALE_BASE as int))
    }
}

/// Clamp a mathematical coordinate into the representable band.
pub open spec fn sat(v: int) -> int {
    if v > COORD_LIMIT as int {
        COORD_LIMIT as int
    } else if v < -(COORD_LIMIT as int) {
        -(COORD_LIMIT as int)
    } else {
        v
    }
}

/// Effective displacement of a translation: scaled by `s` or verbatim.
pub open spec fn eff(d: int, s: int, scaled: bool) -> int {
    if scaled {
        smul(d, s)
    } else {
        d
    }
}

/// Scaled product in machine integers.
pub fn scaled_mul(d: i64, s: i64) -> (r: i64)
    requires
        -DELTA_LIMIT <= d <= DELTA_LIMIT,
        0 <= s <= SCALE_LIMIT,
    ensures
        r == smul(d as int, s as int),
        -2_000_000_000_000 <= r <= 2_000_000_000_000,
{
    if d >= 0 {
        assert((d as int) * (s as int) <= 2_000_000_000_000_000int) by (nonlinear_arith)
            requires
                0 <= d <= 2_000_000_000,
                0 <= s <= 1_000_000,
        ;
        assert((d as int) * (s as int) >= 0) by (nonlinear_arith)
            requires
                0 <= d,
                0 <= s,
        ;
        let p: u64 = (d as u64) * (s as u64);
        proof {
            lemma_div_is_ordered(p as int, 2_000_000_000_000_000int, 1000int);
        }
        (p / 1000) as i64
    } else {
        let m: i64 = -d;
        assert((m as int) * (s as int) <= 2_000_000_000_000_000int) by (nonlinear_arith)
            requires
                0 <= m <= 2_000_000_000,
                0 <= s <= 1_000_000,
        ;
        assert((m as int) * (s as int) >= 0) by (nonlinear_arith)
            requires
                0 <= m,
                0 <= s,
        ;
        let p: u64 = (m as u64) * (s as u64);
        proof {
            lemma_div_is_ordered(p as int, 2_000_000_000_000_000int, 1000int);
        }
        -((p / 1000) as i64)
    }
}

/// An entity's rendered extent along one axis: the sprite-sheet fraction
/// `frac` of an `img`-pixel sheet, scaled by a rectangle's `scale` factor.
pub fn scaled_dim(frac: i64, img: i64, scale: i64) -> (r: i64)
    requires
        0 <= frac <= SCALE_BASE,
        0 <= img <= IMG_LIMIT,
        0 <= scale <= SCALE_LIMIT,
    ensures
        r == smul(frac as int * img as int, scale as int),
        0 <= r <= 2_000_000_000_000,
{
    assert((frac as int) * (img as int) <= 1_000_000_000int && 0 <= (frac as int) * (
    img as int)) by (nonlinear_arith)
        requires
            0 <= frac <= 1000,
            0 <= img <= 1_000_000,
    ;
    let d: i64 = frac * img;
    let r = scaled_mul(d, scale);
    proof {
        lemma_div_is_ordered(0int, (d as int) * (scale as int), 1000int);
        assert(0 <= (d as int) * (scale as int)) by (nonlinear_arith)
            requires
                0 <= d,
                0 <= scale,
        ;
    }
    r
}

/// The scaled product `a * b / SCALE_BASE` over a coordinate-sized `a` and
/// an extent-sized `b`, wide enough that nothing overflows.
pub fn wide_smul(a: i64, b: i64) -> (r: i128)
    requires
        -COORD_LIMIT <= a <= COORD_LIMIT,
        0 <= b <= 4_000_000_000_000,
    ensures
        r == smul(a as int, b as int),
{
    if a >= 0 {
        assert((a as int) * (b as int) <= 0x8000_0000_0000_0000_0000_0000int && 0 <= (a as int)
            * (b as int)) by (nonlinear_arith)
            requires
                0 <= a <= 1_000_000_000_000,
                0 <= b <= 4_000_000_000_000,
        ;
        let p: u128 = (a as u128) * (b as u128);
        proof {
            lemma_div_is_ordered(p as int, 0x8000_0000_0000_0000_0000_0000int, 1000int);
        }
        (p / 1000) as i128
    } else {
        let m: i64 = -a;
        assert((m as int) * (b as int) <= 0x8000_0000_0000_0000_0000_0000int && 0 <= (m as int)
            * (b as int)) by (nonlinear_arith)
            requires
                0 <= m <= 1_000_000_000_000,
                0 <= b <= 4_000_000_000_000,
        ;
        let p: u128 = (m as u128) * (b as u128);
        proof {
            lemma_div_is_ordered(p as int, 0x8000_0000_0000_0000_0000_0000int, 1000int);
        }
        -((p / 1000) as i128)
    }
}

/// Clamp a computed coordinate into the representable band.
pub fn sat_coord(v: i64) -> (r: i64)
    ensures
        r == sat(v as int),
{
    if v > COORD_LIMIT {
        COORD_LIMIT
    } else if v < -COORD_LIMIT {
        -COORD_LIMIT
    } else {
        v
    }
}

/// Saturating coordinate addition.
pub fn sat_add(c: i64, d: i64) -> (r: i64)
    ensures
        r == sat(c as int + d as int),
{
    let s: i128 = (c as i128) + (d as i128);
    if s > COORD_LIMIT as i128 {
        COORD_LIMIT
    } else if s < -(COORD_LIMIT as i128) {
        -COORD_LIMIT
    } else {
        s as i64
    }
}

/// A plain two-dimensional vector of fixed-point units.
#[derive(Clone, Copy, PartialEq, Eq, Structural, Debug)]
pub struct Point {
    pub x: i64,
    pub y: i64,
}

/// The sprite sheet's pixel size; every rendered extent is a normalized
/// frame fraction of it.
#[derive(Clone, Copy, PartialEq, Eq, Structural, Debug)]
pub struct ImageDims {
    pub h: i64,
    pub w: i64,
}

impl ImageDims {
    pub open spec fn wf(self) -> bool {
        &&& 0 <= self.h <= IMG_LIMIT
        &&& 0 <= self.w <= IMG_LIMIT
    }
}

/// A screen rectangle: position `(x, y)` in fixed-point units; `w` and `h`
/// are the non-uniform scale factors applied to a sprite's intrinsic frame
/// size, not a literal pixel size.
#[derive(Clone, Copy, PartialEq, Eq, Structural, Debug)]
pub struct Rect {
    pub x: i64,
    pub y: i64,
    pub w: i64,
    pub h: i64,
}

impl Rect {
    /// Coordinates in band, scale factors non-negative and bounded.
    pub open spec fn wf(self) -> bool {
        &&& -COORD_LIMIT <= self.x <= COORD_LIMIT
        &&& -COORD_LIMIT <= self.y <= COORD_LIMIT
        &&& 0 <= self.w <= SCALE_LIMIT
        &&& 0 <= self.h <= SCALE_LIMIT
    }

    /// The rectangle after a translation: `x` scales by `w`, `y` by `h`.
    pub open spec fn spec_translated(self, dx: int, dy: int, scaled: bool) -> Rect {
        Rect {
            x: sat(self.x + eff(dx, self.w as int, scaled)) as i64,
            y: sat(self.y + eff(dy, self.h as int, scaled)) as i64,
            w: self.w,
            h: self.h,
        }
    }

    /// Move the rectangle by `offset`; when `scaled`, the horizontal
    /// displacement is multiplied by `w` and the vertical one by `h`.
    pub fn translate(&mut self, offset: Point, scaled: bool)
        requires
            old(self).wf(),
            -DELTA_LIMIT <= offset.x <= DELTA_LIMIT,
            -DELTA_LIMIT <= offset.y <= DELTA_LIMIT,
        ensures
            *final(self) == old(self).spec_translated(offset.x as int, offset.y as int, scaled),
            final(self).wf(),
    {
        let ex: i64 = if scaled {
            scaled_mul(offset.x, self.w)
        } else {
            offset.x
        };
        let ey: i64 = if scaled {
            scaled_mul(offset.y, self.h)
        } else {
            offset.y
        };
        self.x = sat_add(self.x, ex);
        self.y = sat_add(self.y, ey);
    }
}

} // verus!
