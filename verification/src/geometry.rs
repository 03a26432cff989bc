//! Fixed-point plane geometry: coordinates, bounded translation, and the
//! circle-versus-axis-aligned-box overlap test that every collision check
//! uses.

use vstd::prelude::*;

verus! {

/// Position steps per world unit: a coordinate of `MICRO` is one unit.
pub const MICRO: i64 = 1_000_000;

/// Coordinates are confined to `[-POS_LIMIT, POS_LIMIT]` (about 2.3e12 world
/// units, far beyond any playfield) so that translation arithmetic stays
/// inside `i64`.
pub const POS_LIMIT: i64 = 0x2000_0000_0000_0000;

/// Upper bound on a tick's elapsed time: one minute, in milliseconds.
pub const MAX_TICK_MS: i64 = 60_000;

/// Upper bound on a projectile or actor speed, in world units per second.
pub const MAX_SPEED: i64 = 1_000_000;

/// Direction components are confined to `[-MAX_DIR, MAX_DIR]`.
pub const MAX_DIR: i64 = 1000;

/// The largest coordinate displacement a single tick may ask for:
/// `MAX_DIR * MAX_SPEED * MAX_TICK_MS`.
pub const MAX_DELTA: i64 = 60_000_000_000_000;

/// Upper bound on a collision radius or box half-extent (1000 world units).
pub const RADIUS_LIMIT: i64 = 1_000_000_000;

/// A point or direction in the plane.
#[derive(Clone, Copy, PartialEq, Eq, Structural, Debug)]
pub struct Vec2 {
    pub x: i64,
    pub y: i64,
}

/// Whether both coordinates of `v` lie inside the confined range.
pub open spec fn in_arena(v: Vec2) -> bool {
    -POS_LIMIT <= v.x <= POS_LIMIT && -POS_LIMIT <= v.y <= POS_LIMIT
}

/// `v` confined to `[-POS_LIMIT, POS_LIMIT]`.
pub open spec fn clamp_coord(v: int) -> int {
    if v > POS_LIMIT as int {
        POS_LIMIT as int
    } else if v < -POS_LIMIT as int {
        -POS_LIMIT as int
    } else {
        v
    }
}

/// Translate one coordinate by `delta`, confining the result to the arena.
pub fn translate_coord(pos: i64, delta: i64) -> (r: i64)
    requires
        -POS_LIMIT <= pos <= POS_LIMIT,
        -MAX_DELTA <= delta <= MAX_DELTA,
    ensures
        r == clamp_coord(pos + delta),
{
    let moved: i64 = pos + delta;
    if moved > POS_LIMIT {
        POS_LIMIT
    } else if moved < -POS_LIMIT {
        -POS_LIMIT
    } else {
        moved
    }
}

/// One tick's displacement along one axis: direction component (in
/// thousandths) times speed (units per second) times elapsed milliseconds
/// comes out in micro-units exactly, with no rounding.
pub fn scaled_step(dir_c: i64, speed: i64, dt_ms: i64) -> (d: i64)
    requires
        -MAX_DIR <= dir_c <= MAX_DIR,
        0 <= speed <= MAX_SPEED,
        0 <= dt_ms <= MAX_TICK_MS,
    ensures
        d == dir_c * speed * dt_ms,
        -MAX_DELTA <= d <= MAX_DELTA,
{
    proof {
        assert(-MAX_DELTA <= dir_c * speed * dt_ms <= MAX_DELTA && -1_000_000_000
            <= dir_c * speed <= 1_000_000_000) by (nonlinear_arith)
            requires
                -MAX_DIR <= dir_c <= MAX_DIR,
                0 <= speed <= MAX_SPEED,
                0 <= dt_ms <= MAX_TICK_MS,
        {
        }
    }
    dir_c * speed * dt_ms
}

/// `r` is the integer square root of `n`: the greatest integer whose
/// square does not exceed `n`.
pub open spec fn is_sqrt_floor(n: int, r: int) -> bool {
    0 <= r && r * r <= n && n < (r + 1) * (r + 1)
}

/// The integer square root of `n` (meaningful for `n >= 0`).
pub open spec fn sqrt_floor(n: int) -> int {
    choose|r: int| is_sqrt_floor(n, r)
}

/// The integer square root is unique, so `sqrt_floor` agrees with any
/// witness.
pub proof fn lemma_sqrt_floor_agrees(n: int, r: int)
    requires
        is_sqrt_floor(n, r),
    ensures
        sqrt_floor(n) == r,
{
    assert(is_sqrt_floor(n, sqrt_floor(n)));
    let s = sqrt_floor(n);
    assert(s == r) by (nonlinear_arith)
        requires
            0 <= r && r * r <= n && n < (r + 1) * (r + 1),
            0 <= s && s * s <= n && n < (s + 1) * (s + 1),
    {
    }
}

/// Upper bound on `isqrt`'s argument: `2^126`, so that the initial search
/// bound of `2^63` squares above it.
pub const MAX_SQRT_ARG: u128 = 0x4000_0000_0000_0000_0000_0000_0000_0000;

/// Integer square root by bisection.
pub fn isqrt(n: u128) -> (r: u64)
    requires
        n < MAX_SQRT_ARG,
    ensures
        is_sqrt_floor(n as int, r as int),
{
    if n == 0 {
        return 0;
    }
    let mut lo: u64 = 0;
    let mut hi: u64 = 0x8000_0000_0000_0000;
    proof {
        assert((hi as int) * (hi as int) == MAX_SQRT_ARG as int) by (nonlinear_arith)
            requires
                hi == 0x8000_0000_0000_0000u64,
        {
        }
    }
    while hi - lo > 1
        invariant
            lo < hi <= 0x8000_0000_0000_0000u64,
            (lo as int) * (lo as int) <= n as int,
            (n as int) < (hi as int) * (hi as int),
        decreases hi - lo,
    {
        let mid: u64 = lo + (hi - lo) / 2;
        proof {
            assert((mid as int) * (mid as int) <= 0x4000_0000_0000_0000_0000_0000_0000_0000int)
                by (nonlinear_arith)
                requires
                    0 <= mid <= 0x8000_0000_0000_0000u64,
            {
            }
        }
        let sq: u128 = (mid as u128) * (mid as u128);
        if sq <= n {
            lo = mid;
        } else {
            hi = mid;
        }
    }
    lo
}

/// `v` confined to `[lo, hi]` (meaningful only when `lo <= hi`).
pub open spec fn clamp_between(v: int, lo: int, hi: int) -> int {
    if v < lo {
        lo
    } else if v > hi {
        hi
    } else {
        v
    }
}

/// The circle of radius `r` around `c` meets the axis-aligned box of
/// half-extents `half` around `b`: the point of the box closest to `c` lies
/// within `r` of `c`.  Boundary contact counts as overlap.
pub open spec fn circle_meets_box(c: Vec2, r: int, b: Vec2, half: Vec2) -> bool {
    let nx = clamp_between(c.x as int, b.x - half.x, b.x + half.x);
    let ny = clamp_between(c.y as int, b.y - half.y, b.y + half.y);
    (c.x - nx) * (c.x - nx) + (c.y - ny) * (c.y - ny) <= r * r
}

/// Circle-versus-box intersection test.  No rotation support: boxes are
/// axis-aligned regardless of sprite rotation.
pub fn circle_box_overlap(c: Vec2, r: i64, b: Vec2, half: Vec2) -> (res: bool)
    requires
        in_arena(c),
        in_arena(b),
        0 <= r <= RADIUS_LIMIT,
        0 <= half.x <= RADIUS_LIMIT,
        0 <= half.y <= RADIUS_LIMIT,
    ensures
        res == circle_meets_box(c, r as int, b, half),
{
    let lox: i64 = b.x - half.x;
    let hix: i64 = b.x + half.x;
    let loy: i64 = b.y - half.y;
    let hiy: i64 = b.y + half.y;
    if c.x < lox - r || c.x > hix + r {
        proof {
            let nx = clamp_between(c.x as int, lox as int, hix as int);
            let ny = clamp_between(c.y as int, loy as int, hiy as int);
            assert((c.x - nx) * (c.x - nx) + (c.y - ny) * (c.y - ny) > r * r) by (nonlinear_arith)
                requires
                    nx - r > c.x || nx + r < c.x,
                    r >= 0,
            {
            }
        }
        false
    } else if c.y < loy - r || c.y > hiy + r {
        proof {
            let nx = clamp_between(c.x as int, lox as int, hix as int);
            let ny = clamp_between(c.y as int, loy as int, hiy as int);
            assert((c.x - nx) * (c.x - nx) + (c.y - ny) * (c.y - ny) > r * r) by (nonlinear_arith)
                requires
                    ny - r > c.y || ny + r < c.y,
                    r >= 0,
            {
            }
        }
        false
    } else {
        let nx: i64 = if c.x < lox {
            lox
        } else if c.x > hix {
            hix
        } else {
            c.x
        };
        let ny: i64 = if c.y < loy {
            loy
        } else if c.y > hiy {
            hiy
        } else {
            c.y
        };
        let dx: i64 = c.x - nx;
        let dy: i64 = c.y - ny;
        proof {
            assert(0 <= dx * dx <= r * r && 0 <= dy * dy <= r * r && r * r
                <= RADIUS_LIMIT * RADIUS_LIMIT) by (nonlinear_arith)
                requires
                    -r <= dx <= r,
                    -r <= dy <= r,
                    0 <= r <= RADIUS_LIMIT,
            {
            }
        }
        dx * dx + dy * dy <= r * r
    }
}

} // verus!
