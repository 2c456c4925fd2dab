//! Signed 64-bit fixed-point scalars and the small math helpers the camera
//! update is built from: clamping, saturating accumulation, scaled
//! multiplication, zone interpolation and an integer square root used to cap
//! the pan velocity vector.

use vstd::prelude::*;

verus! {

/// Number of fixed-point units in 1.0; all scalar quantities (seconds,
/// distances, radians, velocities) are integers scaled by this factor.
pub const SCALE: i64 = 1_000_000;

/// One full turn, `2 * pi`, in fixed-point units (truncated).
pub const TAU_FIXED: i64 = 6_283_185;

/// Largest magnitude accepted for a configuration value (one million units).
pub const MAX_MAG: i64 = 1_000_000_000_000;

/// Velocity accumulation saturates into `[-VEL_LIMIT, VEL_LIMIT]` instead of
/// wrapping past the representable band.
pub const VEL_LIMIT: i64 = 1_000_000_000_000_000;

/// A stored velocity always lies inside `[-VEL_BOUND, VEL_BOUND]`: twice the
/// saturation band, because a one-sided deceleration frame can push a
/// velocity away from zero by at most its own magnitude.
pub const VEL_BOUND: i64 = 2_000_000_000_000_000;

/// Largest frame time accepted, two seconds.
pub const MAX_DELTA: i64 = 2_000_000;

/// Largest clock value accepted (about thirty-one years of session time).
pub const MAX_TIME: i64 = 1_000_000_000_000_000;

/// Largest magnitude accepted for one scroll event (a thousand lines).
pub const MAX_SCROLL: i64 = 1_000_000_000;

/// An inclusive range of fixed-point values.
#[derive(Clone, Copy, Debug, PartialEq, Eq, Structural)]
pub struct FixedRange {
    pub min: i64,
    pub max: i64,
}

/// A two-dimensional fixed-point vector (pan velocity, cursor, window size).
#[derive(Clone, Copy, Debug, PartialEq, Eq, Structural)]
pub struct Vec2Fixed {
    pub x: i64,
    pub y: i64,
}

/// Magnitude of a mathematical integer.
pub open spec fn abs_i(x: int) -> int {
    if x < 0 {
        -x
    } else {
        x
    }
}

/// Division truncating toward zero, the rounding of machine division;
/// arbitrary (zero) on non-positive divisors, which no caller reaches.
pub open spec fn div_trunc(a: int, b: int) -> int {
    if b <= 0 {
        0
    } else if a >= 0 {
        a / b
    } else {
        -((-a) / b)
    }
}

/// Clamps `x` into `[lo, hi]`, checking the upper bound first exactly as the
/// executable helper does.
pub open spec fn spec_clamp(x: int, lo: int, hi: int) -> int {
    if x > hi {
        hi
    } else if x < lo {
        lo
    } else {
        x
    }
}

/// Product of two fixed-point values, rescaled back by `SCALE` with
/// truncation toward zero.
pub open spec fn spec_fx_mul(a: int, b: int) -> int {
    div_trunc(a * b, SCALE as int)
}

/// A velocity accumulation step: the exact sum, saturated into the
/// representable band `[-VEL_LIMIT, VEL_LIMIT]`.
pub open spec fn spec_sat(v: int) -> int {
    spec_clamp(v, -(VEL_LIMIT as int), VEL_LIMIT as int)
}

/// Clamps a value into an inclusive range.
pub fn clamp(x: i64, range: &FixedRange) -> (r: i64)
    ensures
        r == spec_clamp(x as int, range.min as int, range.max as int),
{
    if x > range.max {
        range.max
    } else if x < range.min {
        range.min
    } else {
        x
    }
}

/// Magnitude of an `i64` as a `u128` (total, also on `i64::MIN`).
fn abs_u128(x: i64) -> (r: u128)
    ensures
        r as int == abs_i(x as int),
{
    if x >= 0 {
        x as u128
    } else {
        (-(x as i128)) as u128
    }
}

/// Fixed-point multiplication: `a * b / SCALE`, truncating toward zero.
pub fn fx_mul(a: i64, b: i64) -> (r: i64)
    requires
        -(0x7fff_ffff_ffff_ffff * 1_000_000) <= (a as int) * (b as int),
        (a as int) * (b as int) <= 0x7fff_ffff_ffff_ffff * 1_000_000,
    ensures
        r as int == spec_fx_mul(a as int, b as int),
        abs_i(r as int) == abs_i((a as int) * (b as int)) / (SCALE as int),
{
    let negative = (a < 0) != (b < 0);
    let am = abs_u128(a);
    let bm = abs_u128(b);
    proof {
        assert((am as int) * (bm as int) == abs_i((a as int) * (b as int))) by (nonlinear_arith)
            requires
                am as int == abs_i(a as int),
                bm as int == abs_i(b as int),
        ;
    }
    let prod = am * bm;
    let q = prod / (SCALE as u128);
    proof {
        assert(q as int == (prod as int) / 1_000_000);
        assert((prod as int) / 1_000_000 <= 0x7fff_ffff_ffff_ffff) by {
            vstd::arithmetic::div_mod::lemma_div_is_ordered(
                prod as int,
                (0x7fff_ffff_ffff_ffff as int) * 1_000_000,
                1_000_000,
            );
            assert((0x7fff_ffff_ffff_ffff as int) * 1_000_000 / 1_000_000 == 0x7fff_ffff_ffff_ffff);
        };
        if (a as int) * (b as int) >= 0 {
            assert(prod as int == (a as int) * (b as int));
        } else {
            assert(prod as int == -((a as int) * (b as int)));
        }
    }
    if negative {
        proof {
            if (a as int) * (b as int) > 0 {
                assert(!((a < 0) != (b < 0))) by (nonlinear_arith)
                    requires
                        (a as int) * (b as int) > 0,
                ;
            }
        }
        -(q as i64)
    } else {
        proof {
            if (a as int) * (b as int) < 0 {
                assert((a < 0) != (b < 0)) by (nonlinear_arith)
                    requires
                        (a as int) * (b as int) < 0,
                ;
            }
        }
        q as i64
    }
}

/// Bounds on the factors carry over to the product and to the rescaled
/// fixed-point product.
pub proof fn lemma_fx_mul_bound(a: int, b: int, a_bound: int, b_bound: int)
    requires
        abs_i(a) <= a_bound,
        abs_i(b) <= b_bound,
    ensures
        -(a_bound * b_bound) <= a * b <= a_bound * b_bound,
        abs_i(spec_fx_mul(a, b)) <= (a_bound * b_bound) / (SCALE as int),
{
    assert(-(a_bound * b_bound) <= a * b <= a_bound * b_bound) by (nonlinear_arith)
        requires
            abs_i(a) <= a_bound,
            abs_i(b) <= b_bound,
    ;
    let p = a * b;
    let s = SCALE as int;
    if p >= 0 {
        assert(abs_i(div_trunc(p, s)) == p / s) by {
            vstd::arithmetic::div_mod::lemma_div_pos_is_pos(p, s);
        };
    } else {
        assert(abs_i(div_trunc(p, s)) == (-p) / s) by {
            vstd::arithmetic::div_mod::lemma_div_pos_is_pos(-p, s);
        };
    }
    assert(abs_i(p) / s <= (a_bound * b_bound) / s) by {
        vstd::arithmetic::div_mod::lemma_div_is_ordered(abs_i(p), a_bound * b_bound, s);
    };
}

/// Adds an increment to a velocity and saturates the sum into the
/// representable band.
pub fn sat_add(v: i64, inc: i64) -> (r: i64)
    requires
        -VEL_BOUND <= v <= VEL_BOUND,
        -8_000_000_000_000_000_000 <= inc <= 8_000_000_000_000_000_000,
    ensures
        r as int == spec_sat(v + inc),
        -VEL_LIMIT <= r <= VEL_LIMIT,
{
    let s = v + inc;
    if s > VEL_LIMIT {
        VEL_LIMIT
    } else if s < -VEL_LIMIT {
        -VEL_LIMIT
    } else {
        s
    }
}

/// Linear interpolation of `v`, clamped into the zone `[zone.min, zone.max]`,
/// onto the output range `[out.min, out.max]`.
pub open spec fn spec_lerp_in_zone(
    v: int,
    zone_min: int,
    zone_max: int,
    out_min: int,
    out_max: int,
) -> int {
    let in_zone = spec_clamp(v, zone_min, zone_max);
    out_min + div_trunc((in_zone - zone_min) * (out_max - out_min), zone_max - zone_min)
}

/// Interpolates `v` against `zone` into `out`: at `zone.min` the result is
/// `out.min`, at `zone.max` it is `out.max`, clamped outside the zone.  The
/// output range may run downward as well as upward.
pub fn lerp_in_zone(v: i64, zone: &FixedRange, out: &FixedRange) -> (r: i64)
    requires
        zone.min < zone.max,
        -MAX_MAG <= zone.min,
        zone.max <= MAX_MAG,
        -MAX_MAG <= out.min <= MAX_MAG,
        -MAX_MAG <= out.max <= MAX_MAG,
    ensures
        r as int == spec_lerp_in_zone(
            v as int,
            zone.min as int,
            zone.max as int,
            out.min as int,
            out.max as int,
        ),
        out.min <= out.max ==> out.min <= r <= out.max,
        out.max <= out.min ==> out.max <= r <= out.min,
{
    let in_zone = clamp(v, zone);
    let d = in_zone - zone.min;
    let z = zone.max - zone.min;
    let w = out.max - out.min;
    let w_abs = if w < 0 {
        -w
    } else {
        w
    };
    proof {
        assert((d as int) * (w_abs as int) <= 4_000_000_000_000_000_000_000_000)
            by (nonlinear_arith)
            requires
                0 <= d as int <= 2_000_000_000_000,
                0 <= w_abs as int <= 2_000_000_000_000,
        ;
        assert(0 <= (d as int) * (w_abs as int)) by (nonlinear_arith)
            requires
                0 <= d as int,
                0 <= w_abs as int,
        ;
    }
    let num = (d as u128) * (w_abs as u128);
    let q = num / (z as u128);
    proof {
        let di = d as int;
        let wi = w_abs as int;
        let zi = z as int;
        assert(num as int == di * wi);
        assert(di * wi <= zi * wi) by (nonlinear_arith)
            requires
                0 <= di <= zi,
                0 <= wi,
        ;
        assert((di * wi) / zi <= (zi * wi) / zi) by {
            vstd::arithmetic::div_mod::lemma_div_is_ordered(di * wi, zi * wi, zi);
        };
        assert((zi * wi) / zi == wi) by {
            vstd::arithmetic::div_mod::lemma_div_multiples_vanish(wi, zi);
        };
        assert(q as int == (di * wi) / zi);
        assert(q as int <= wi);
        if w >= 0 {
            assert(div_trunc(di * (w as int), zi) == q as int);
        } else {
            assert(di * (w as int) == -(di * wi) && di * wi >= 0) by (nonlinear_arith)
                requires
                    wi == -(w as int),
                    0 <= di,
                    0 <= wi,
            ;
            vstd::arithmetic::div_mod::lemma_div_of0(zi);
            assert(div_trunc(di * (w as int), zi) == -(q as int));
        }
    }
    if w >= 0 {
        out.min + (q as i64)
    } else {
        out.min - (q as i64)
    }
}

/// Holds when `r` is the integer square root of `n`, rounded down.
pub open spec fn is_sqrt_floor(n: int, r: int) -> bool {
    0 <= r && r * r <= n && n < (r + 1) * (r + 1)
}

/// The integer square root of `n`, rounded down.
pub open spec fn sqrt_floor_of(n: int) -> int {
    choose|r: int| is_sqrt_floor(n, r)
}

/// The integer square root of `n`, rounded up.
pub open spec fn sqrt_ceil_of(n: int) -> int {
    let f = sqrt_floor_of(n);
    if f * f == n {
        f
    } else {
        f + 1
    }
}

/// The rounded-down integer square root is unique.
pub proof fn lemma_sqrt_floor_unique(n: int, r1: int, r2: int)
    requires
        is_sqrt_floor(n, r1),
        is_sqrt_floor(n, r2),
    ensures
        r1 == r2,
{
    assert(r1 == r2) by (nonlinear_arith)
        requires
            0 <= r1,
            0 <= r2,
            r1 * r1 <= n,
            n < (r1 + 1) * (r1 + 1),
            r2 * r2 <= n,
            n < (r2 + 1) * (r2 + 1),
    ;
}

/// Integer square root of `n`, rounded up, by bisection.
pub fn sqrt_ceil(n: u128) -> (r: u128)
    requires
        n < 0x10_0000_0000_0000 * 0x10_0000_0000_0000,
    ensures
        r as int == sqrt_ceil_of(n as int),
        n as int <= (r as int) * (r as int),
        r <= 0x10_0000_0000_0000,
        n > 0 ==> 1 <= r && ((r as int) - 1) * ((r as int) - 1) < n as int,
{
    let mut lo: u128 = 0;
    let mut hi: u128 = 0x10_0000_0000_0000;
    while hi - lo > 1
        invariant
            lo < hi,
            hi <= 0x10_0000_0000_0000,
            (lo as int) * (lo as int) <= n as int,
            (n as int) < (hi as int) * (hi as int),
        decreases hi - lo,
    {
        let mid = lo + (hi - lo) / 2;
        proof {
            assert((mid as int) * (mid as int) <= 0x10_0000_0000_0000 * 0x10_0000_0000_0000)
                by (nonlinear_arith)
                requires
                    0 <= mid as int <= 0x10_0000_0000_0000,
            ;
        }
        if mid * mid <= n {
            lo = mid;
        } else {
            hi = mid;
        }
    }
    proof {
        assert(hi == lo + 1);
        assert(is_sqrt_floor(n as int, lo as int));
        assert(sqrt_floor_of(n as int) == lo as int) by {
            assert(is_sqrt_floor(n as int, sqrt_floor_of(n as int))) by {
                assert(exists|r: int| is_sqrt_floor(n as int, r)) by {
                    assert(is_sqrt_floor(n as int, lo as int));
                };
            };
            lemma_sqrt_floor_unique(n as int, sqrt_floor_of(n as int), lo as int);
        };
        assert((lo as int) * (lo as int) <= 0x10_0000_0000_0000 * 0x10_0000_0000_0000)
            by (nonlinear_arith)
            requires
                0 <= lo as int <= 0x10_0000_0000_0000,
        ;
        if n > 0 {
            assert(1 <= lo || (lo as int) * (lo as int) < n as int);
            assert(((lo as int) - 1) * ((lo as int) - 1) < (lo as int) * (lo as int) || lo == 0)
                by (nonlinear_arith)
                requires
                    0 <= lo as int,
            ;
        }
    }
    if lo * lo == n {
        lo
    } else {
        lo + 1
    }
}

/// Squared length of a two-dimensional vector.
pub open spec fn spec_speed_sq(x: int, y: int) -> int {
    x * x + y * y
}

/// A component scaled by `m / l`, truncating toward zero.
pub open spec fn spec_scale_down(x: int, m: int, l: int) -> int {
    div_trunc(x * m, l)
}

/// The pan-velocity cap: a vector whose squared length exceeds `m * m` is
/// rescaled by `m` over the rounded-up length, which preserves component
/// signs and brings the squared length to at most `m * m`; shorter vectors
/// pass through unchanged.
pub open spec fn spec_pan_limit(x: int, y: int, m: int) -> (int, int) {
    let s = spec_speed_sq(x, y);
    if s <= m * m {
        (x, y)
    } else {
        let l = sqrt_ceil_of(s);
        (spec_scale_down(x, m, l), spec_scale_down(y, m, l))
    }
}

/// Rescaled magnitudes keep the squared length under the cap and never grow.
proof fn lemma_pan_scale_bound(a: int, b: int, m: int, l: int, qa: int, qb: int)
    requires
        0 <= a,
        0 <= b,
        0 <= m,
        1 <= l,
        a * a + b * b <= l * l,
        m * m < a * a + b * b,
        qa == (a * m) / l,
        qb == (b * m) / l,
    ensures
        qa * qa + qb * qb <= m * m,
        0 <= qa <= m,
        0 <= qb <= m,
        qa <= a,
        qb <= b,
{
    assert(0 <= a * m) by (nonlinear_arith)
        requires
            0 <= a,
            0 <= m,
    ;
    assert(0 <= b * m) by (nonlinear_arith)
        requires
            0 <= b,
            0 <= m,
    ;
    vstd::arithmetic::div_mod::lemma_div_pos_is_pos(a * m, l);
    vstd::arithmetic::div_mod::lemma_div_pos_is_pos(b * m, l);
    assert(qa * l <= a * m) by {
        vstd::arithmetic::div_mod::lemma_fundamental_div_mod(a * m, l);
        assert(a * m == l * ((a * m) / l) + (a * m) % l);
        vstd::arithmetic::div_mod::lemma_mod_bound(a * m, l);
        assert(qa * l == l * qa) by (nonlinear_arith);
    };
    assert(qb * l <= b * m) by {
        vstd::arithmetic::div_mod::lemma_fundamental_div_mod(b * m, l);
        assert(b * m == l * ((b * m) / l) + (b * m) % l);
        vstd::arithmetic::div_mod::lemma_mod_bound(b * m, l);
        assert(qb * l == l * qb) by (nonlinear_arith);
    };
    assert((qa * qa + qb * qb) * (l * l) <= (m * m) * (l * l)) by (nonlinear_arith)
        requires
            0 <= qa,
            0 <= qb,
            0 <= l,
            qa * l <= a * m,
            qb * l <= b * m,
            a * a + b * b <= l * l,
            0 <= a * m,
            0 <= b * m,
            0 <= m,
    ;
    assert(qa * qa + qb * qb <= m * m) by (nonlinear_arith)
        requires
            (qa * qa + qb * qb) * (l * l) <= (m * m) * (l * l),
            1 <= l,
    ;
    assert(qa <= m) by (nonlinear_arith)
        requires
            qa * qa + qb * qb <= m * m,
            0 <= qa,
            0 <= qb,
            0 <= m,
    ;
    assert(qb <= m) by (nonlinear_arith)
        requires
            qa * qa + qb * qb <= m * m,
            0 <= qa,
            0 <= qb,
            0 <= m,
    ;
    assert(m <= l) by (nonlinear_arith)
        requires
            m * m < a * a + b * b,
            a * a + b * b <= l * l,
            0 <= m,
            1 <= l,
    ;
    assert(qa <= a) by {
        assert(a * m <= a * l) by (nonlinear_arith)
            requires
                m <= l,
                0 <= a,
        ;
        vstd::arithmetic::div_mod::lemma_div_is_ordered(a * m, a * l, l);
        vstd::arithmetic::div_mod::lemma_div_multiples_vanish(a, l);
    };
    assert(qb <= b) by {
        assert(b * m <= b * l) by (nonlinear_arith)
            requires
                m <= l,
                0 <= b,
        ;
        vstd::arithmetic::div_mod::lemma_div_is_ordered(b * m, b * l, l);
        vstd::arithmetic::div_mod::lemma_div_multiples_vanish(b, l);
    };
}

/// Caps a pan-velocity vector at the configured maximum speed, preserving
/// the direction of each component.
pub fn pan_limit(v: Vec2Fixed, max_speed: i64) -> (r: Vec2Fixed)
    requires
        0 <= max_speed <= MAX_MAG,
        -VEL_BOUND <= v.x <= VEL_BOUND,
        -VEL_BOUND <= v.y <= VEL_BOUND,
    ensures
        ((r.x as int, r.y as int)) == spec_pan_limit(v.x as int, v.y as int, max_speed as int),
        spec_speed_sq(r.x as int, r.y as int) <= (max_speed as int) * (max_speed as int),
        abs_i(r.x as int) <= abs_i(v.x as int),
        abs_i(r.y as int) <= abs_i(v.y as int),
        abs_i(r.x as int) <= max_speed as int,
        abs_i(r.y as int) <= max_speed as int,
        -VEL_BOUND <= r.x <= VEL_BOUND,
        -VEL_BOUND <= r.y <= VEL_BOUND,
{
    let ax = abs_u128(v.x);
    let ay = abs_u128(v.y);
    proof {
        assert((ax as int) * (ax as int) + (ay as int) * (ay as int) < 0x10_0000_0000_0000
            * 0x10_0000_0000_0000) by (nonlinear_arith)
            requires
                0 <= ax as int <= VEL_BOUND as int,
                0 <= ay as int <= VEL_BOUND as int,
        ;
        assert((ax as int) * (ax as int) + (ay as int) * (ay as int) == spec_speed_sq(
            v.x as int,
            v.y as int,
        )) by (nonlinear_arith)
            requires
                ax as int == abs_i(v.x as int),
                ay as int == abs_i(v.y as int),
        ;
        assert((max_speed as int) * (max_speed as int) <= 0x10_0000_0000_0000 * 0x10_0000_0000_0000)
            by (nonlinear_arith)
            requires
                0 <= max_speed as int <= MAX_MAG as int,
        ;
    }
    let s = ax * ax + ay * ay;
    let mm = (max_speed as u128) * (max_speed as u128);
    if s <= mm {
        proof {
            assert(spec_pan_limit(v.x as int, v.y as int, max_speed as int) == ((
                v.x as int,
                v.y as int,
            )));
            assert(spec_speed_sq(v.x as int, v.y as int) <= (max_speed as int) * (max_speed as int));
            assert(abs_i(v.x as int) <= max_speed as int && abs_i(v.y as int) <= max_speed as int)
                by (nonlinear_arith)
                requires
                    (v.x as int) * (v.x as int) + (v.y as int) * (v.y as int) <= (max_speed as int)
                        * (max_speed as int),
                    0 <= max_speed as int,
            ;
        }
        v
    } else {
        proof {
            assert(0 <= (max_speed as int) * (max_speed as int)) by (nonlinear_arith)
                requires
                    0 <= max_speed as int,
            ;
        }
        let l = sqrt_ceil(s);
        proof {
            assert((ax as int) * (max_speed as int) <= 0x7fff_ffff_ffff_ffff
                * 0x7fff_ffff_ffff_ffff) by (nonlinear_arith)
                requires
                    0 <= ax as int <= VEL_BOUND as int,
                    0 <= max_speed as int <= MAX_MAG as int,
            ;
            assert((ay as int) * (max_speed as int) <= 0x7fff_ffff_ffff_ffff
                * 0x7fff_ffff_ffff_ffff) by (nonlinear_arith)
                requires
                    0 <= ay as int <= VEL_BOUND as int,
                    0 <= max_speed as int <= MAX_MAG as int,
            ;
        }
        let qx = ax * (max_speed as u128) / l;
        let qy = ay * (max_speed as u128) / l;
        proof {
            let aa = ax as int;
            let bb = ay as int;
            let m = max_speed as int;
            let ll = l as int;
            lemma_pan_scale_bound(aa, bb, m, ll, qx as int, qy as int);
            if v.x < 0 {
                assert((v.x as int) * m <= 0 && -((v.x as int) * m) == aa * m) by (nonlinear_arith)
                    requires
                        v.x < 0,
                        aa == -(v.x as int),
                        0 <= m,
                ;
                if (v.x as int) * m == 0 {
                    assert(aa * m == 0);
                    assert(div_trunc((v.x as int) * m, ll) == 0) by {
                        vstd::arithmetic::div_mod::lemma_div_of0(ll);
                    };
                }
                assert(div_trunc((v.x as int) * m, ll) == -(qx as int));
            } else {
                assert((v.x as int) * m >= 0 && (v.x as int) * m == aa * m) by (nonlinear_arith)
                    requires
                        v.x >= 0,
                        aa == v.x as int,
                        0 <= m,
                ;
                assert(div_trunc((v.x as int) * m, ll) == qx as int);
            }
            if v.y < 0 {
                assert((v.y as int) * m <= 0 && -((v.y as int) * m) == bb * m) by (nonlinear_arith)
                    requires
                        v.y < 0,
                        bb == -(v.y as int),
                        0 <= m,
                ;
                if (v.y as int) * m == 0 {
                    assert(bb * m == 0);
                    assert(div_trunc((v.y as int) * m, ll) == 0) by {
                        vstd::arithmetic::div_mod::lemma_div_of0(ll);
                    };
                }
                assert(div_trunc((v.y as int) * m, ll) == -(qy as int));
            } else {
                assert((v.y as int) * m >= 0 && (v.y as int) * m == bb * m) by (nonlinear_arith)
                    requires
                        v.y >= 0,
                        bb == v.y as int,
                        0 <= m,
                ;
                assert(div_trunc((v.y as int) * m, ll) == qy as int);
            }
            assert((qx as int) * (qx as int) + (qy as int) * (qy as int) == spec_speed_sq(
                if v.x < 0 {
                    -(qx as int)
                } else {
                    qx as int
                },
                if v.y < 0 {
                    -(qy as int)
                } else {
                    qy as int
                },
            )) by (nonlinear_arith);
        }
        let rx = if v.x < 0 {
            -(qx as i64)
        } else {
            qx as i64
        };
        let ry = if v.y < 0 {
            -(qy as i64)
        } else {
            qy as i64
        };
        Vec2Fixed { x: rx, y: ry }
    }
}

} // verus!
