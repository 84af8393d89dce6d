use vstd::prelude::*;

verus! {

/// Largest magnitude of a stored speed; sums that go past it saturate here.
pub const SPEED_LIMIT: i64 = 1_000_000_000_000;

/// The fixed-point value of 1 for fractions (easing samples, the diagonal factor).
pub const FIXED_ONE: i64 = 65536;

/// `FIXED_ONE / sqrt(2)`, rounded: the share of a diagonal kick on each axis.
pub const DIAGONAL: i64 = 46341;

/// `x` held to `[-SPEED_LIMIT, SPEED_LIMIT]`.
pub open spec fn clamp_speed(x: int) -> int {
    if x > SPEED_LIMIT {
        SPEED_LIMIT as int
    } else if x < -SPEED_LIMIT {
        -SPEED_LIMIT
    } else {
        x
    }
}

/// Whether `x` lies within `[-SPEED_LIMIT, SPEED_LIMIT]`.
pub open spec fn speed_in_range(x: int) -> bool {
    -SPEED_LIMIT <= x <= SPEED_LIMIT
}

/// Integer division rounding toward zero, for a positive divisor.
pub open spec fn div_toward_zero(a: int, b: int) -> int {
    if a >= 0 {
        a / b
    } else {
        -((-a) / b)
    }
}

/// `v * frac / FIXED_ONE`, rounded toward zero and clamped to the speed range.
pub open spec fn scale_by(v: int, frac: int) -> int {
    clamp_speed(div_toward_zero(v * frac, FIXED_ONE as int))
}

/// A 2D vector of fixed-point components (a velocity or a force).
#[derive(Debug, Clone, Copy, PartialEq, Eq, Structural)]
pub struct Vec2i {
    pub x: i64,
    pub y: i64,
}

/// A contact normal: a direction, in any positive scale.
#[derive(Debug, Clone, Copy, PartialEq, Eq, Structural)]
pub struct Normal {
    pub x: i32,
    pub y: i32,
}

impl Vec2i {
    /// Whether both components lie in the speed range.
    pub open spec fn in_range(self) -> bool {
        speed_in_range(self.x as int) && speed_in_range(self.y as int)
    }

    /// The zero vector.
    pub fn zero() -> (r: Vec2i)
        ensures
            r.x == 0 && r.y == 0,
    {
        Vec2i { x: 0, y: 0 }
    }

    /// Build a vector from its components.
    pub fn new(x: i64, y: i64) -> (r: Vec2i)
        ensures
            r.x == x && r.y == y,
    {
        Vec2i { x, y }
    }
}

/// Clamp a wide value to the speed range.
pub fn clamp_wide(x: i128) -> (r: i64)
    ensures
        r == clamp_speed(x as int),
{
    if x > SPEED_LIMIT as i128 {
        SPEED_LIMIT
    } else if x < -(SPEED_LIMIT as i128) {
        -SPEED_LIMIT
    } else {
        x as i64
    }
}

/// `a + b`, saturating at the speed range.
pub fn add_speed(a: i64, b: i64) -> (r: i64)
    ensures
        r == clamp_speed(a + b),
{
    clamp_wide(a as i128 + b as i128)
}

/// Division rounding toward zero.
pub fn div_wide(a: i128, b: i128) -> (r: i128)
    requires
        b > 0,
        a > i128::MIN,
    ensures
        r == div_toward_zero(a as int, b as int),
{
    if a >= 0 {
        ((a as u128) / (b as u128)) as i128
    } else {
        let m: u128 = (-a) as u128;
        -((m / (b as u128)) as i128)
    }
}

/// `v * frac / FIXED_ONE`, rounded toward zero and clamped to the speed range.
pub fn scale_fixed(v: i64, frac: i64) -> (r: i64)
    ensures
        r == scale_by(v as int, frac as int),
{
    proof {
        lemma_product_bound(v as int, frac as int, 0x8000_0000_0000_0000int, 0x8000_0000_0000_0000int);
    }
    let wide: i128 = v as i128 * frac as i128;
    clamp_wide(div_wide(wide, FIXED_ONE as i128))
}

/// `v` with its component along `n` taken away (unchanged for a zero normal).
pub open spec fn arrest(v: Vec2i, n: Normal) -> Vec2i {
    let dot = v.x * n.x + v.y * n.y;
    let nn = n.x * n.x + n.y * n.y;
    if nn == 0 {
        v
    } else {
        Vec2i {
            x: clamp_speed(v.x - div_toward_zero(n.x * dot, nn)) as i64,
            y: clamp_speed(v.y - div_toward_zero(n.y * dot, nn)) as i64,
        }
    }
}

proof fn lemma_product_bound(a: int, b: int, ba: int, bb: int)
    requires
        -ba <= a <= ba,
        -bb <= b <= bb,
    ensures
        -(ba * bb) <= a * b <= ba * bb,
{
    assert(-(ba * bb) <= a * b <= ba * bb) by (nonlinear_arith)
        requires
            -ba <= a <= ba,
            -bb <= b <= bb,
    ;
}

proof fn lemma_quotient_bound(a: int, b: int)
    requires
        b > 0,
    ensures
        -a <= div_toward_zero(a, b) <= a || a <= div_toward_zero(a, b) <= -a,
{
    if a >= 0 {
        assert(0 <= a / b <= a) by (nonlinear_arith)
            requires
                a >= 0,
                b > 0,
        ;
    } else {
        let m = -a;
        assert(0 <= m / b <= m) by (nonlinear_arith)
            requires
                m >= 0,
                b > 0,
        ;
    }
}

/// Remove from `v` its component along the contact normal `n`, so that motion into
/// the obstacle stops and motion along it is kept.
pub fn arrest_velocity(v: Vec2i, n: Normal) -> (r: Vec2i)
    ensures
        r == arrest(v, n),
{
    let nx: i128 = n.x as i128;
    let ny: i128 = n.y as i128;
    let vx: i128 = v.x as i128;
    let vy: i128 = v.y as i128;
    let ghost p31: int = 0x8000_0000int;
    let ghost p63: int = 0x8000_0000_0000_0000int;
    proof {
        lemma_product_bound(vx as int, nx as int, p63, p31);
        lemma_product_bound(vy as int, ny as int, p63, p31);
        lemma_product_bound(nx as int, nx as int, p31, p31);
        lemma_product_bound(ny as int, ny as int, p31, p31);
        assert(0 <= nx * nx) by (nonlinear_arith);
        assert(0 <= ny * ny) by (nonlinear_arith);
    }
    let dot: i128 = vx * nx + vy * ny;
    let nn: i128 = nx * nx + ny * ny;
    if nn == 0 {
        return v;
    }
    proof {
        assert(p63 * p31 == 0x4000_0000_0000_0000_0000_0000int);
        lemma_product_bound(nx as int, dot as int, p31, 2 * p63 * p31);
        lemma_product_bound(ny as int, dot as int, p31, 2 * p63 * p31);
        lemma_quotient_bound((nx * dot) as int, nn as int);
        lemma_quotient_bound((ny * dot) as int, nn as int);
    }
    let qx = div_wide(nx * dot, nn);
    let qy = div_wide(ny * dot, nn);
    Vec2i { x: clamp_wide(vx - qx), y: clamp_wide(vy - qy) }
}

} // verus!
