//! Idle deceleration.  Each axis carries a pair of flags saying whether decay
//! may act against positive and against negative motion this frame; an active
//! input clears the flag of its own direction, so deceleration never fights
//! an input.  The decay magnitude never overshoots past zero.

use vstd::prelude::*;

use crate::fixed::abs_i;
use crate::fixed::fx_mul;
use crate::fixed::spec_fx_mul;
use crate::fixed::MAX_DELTA;
use crate::fixed::MAX_MAG;
use crate::fixed::VEL_BOUND;
use crate::fixed::VEL_LIMIT;

verus! {

/// Per-axis deceleration permissions for one frame.
#[derive(Clone, Copy, Debug, PartialEq, Eq, Structural)]
pub struct Deceleration {
    /// Decelerate against motion in the positive direction.
    pub pos: bool,
    /// Decelerate against motion in the negative direction.
    pub neg: bool,
}

impl Default for Deceleration {
    /// With no input seen, decay may act against either direction.
    fn default() -> (r: Self)
        ensures
            r.pos,
            r.neg,
    {
        Deceleration { pos: true, neg: true }
    }
}

/// The signed direction deceleration pushes a velocity `v`: against the
/// motion when both flags stand, fixed when only one does, none when neither.
pub open spec fn spec_decel_dir(d: Deceleration, v: int) -> int {
    if d.pos && d.neg {
        if v > 0 {
            -1
        } else {
            1
        }
    } else if d.pos {
        -1
    } else if d.neg {
        1
    } else {
        0
    }
}

/// One frame of deceleration on a velocity `v`: a step of at most
/// `|magnitude * delta|`, capped at `|v|` so it never overshoots zero, pushed
/// in the flags' direction; a zero velocity is left alone.
pub open spec fn spec_decel_apply(d: Deceleration, v: int, magnitude: int, delta: int) -> int {
    if v == 0 {
        v
    } else {
        let dir = spec_decel_dir(d, v);
        if dir == 0 {
            v
        } else {
            let step = abs_i(spec_fx_mul(magnitude, delta));
            let amount = if step < abs_i(v) {
                step
            } else {
                abs_i(v)
            };
            v + amount * dir
        }
    }
}

impl Deceleration {
    /// Applies one frame of deceleration to `velocity` in place.  A
    /// one-sided flag pair only arises from an active input, whose
    /// accumulation has already saturated the velocity into the narrower
    /// band; with both flags set the magnitude never grows, so the stored
    /// band is preserved either way.
    pub fn apply(&self, velocity: &mut i64, magnitude: i64, delta: i64)
        requires
            -VEL_BOUND <= *old(velocity) <= VEL_BOUND,
            self.pos != self.neg ==> -VEL_LIMIT <= *old(velocity) <= VEL_LIMIT,
            -MAX_MAG <= magnitude <= MAX_MAG,
            0 <= delta <= MAX_DELTA,
        ensures
            *final(velocity) as int == spec_decel_apply(
                *self,
                *old(velocity) as int,
                magnitude as int,
                delta as int,
            ),
            -VEL_BOUND <= *final(velocity) <= VEL_BOUND,
    {
        let v = *velocity;
        if v == 0 {
            return ;
        }
        let dir: i64 = if self.pos && self.neg {
            if v > 0 {
                -1
            } else {
                1
            }
        } else if self.pos {
            -1
        } else if self.neg {
            1
        } else {
            0
        };
        if dir == 0 {
            return ;
        }
        proof {
            assert((magnitude as int) * (delta as int) <= (0x7fff_ffff_ffff_ffff as int)
                * 1_000_000 && -((0x7fff_ffff_ffff_ffff as int) * 1_000_000) <= (magnitude as int)
                * (delta as int)) by (nonlinear_arith)
                requires
                    -MAX_MAG as int <= magnitude as int <= MAX_MAG as int,
                    0 <= delta as int <= MAX_DELTA as int,
            ;
        }
        let max_decel = fx_mul(magnitude, delta);
        let max_decel_abs = if max_decel < 0 {
            -max_decel
        } else {
            max_decel
        };
        let v_abs = if v < 0 {
            -v
        } else {
            v
        };
        let amount = if max_decel_abs < v_abs {
            max_decel_abs
        } else {
            v_abs
        };
        proof {
            let sd = spec_decel_dir(*self, v as int);
            let step = abs_i(spec_fx_mul(magnitude as int, delta as int));
            let amt: int = if step < abs_i(v as int) {
                step
            } else {
                abs_i(v as int)
            };
            assert(sd == dir as int);
            assert(step == max_decel_abs as int);
            assert(amt == amount as int);
            assert(amt * sd == if sd < 0 {
                -amt
            } else {
                amt
            }) by (nonlinear_arith)
                requires
                    sd == -1 || sd == 1,
            ;
        }
        if dir < 0 {
            *velocity = v - amount;
        } else {
            *velocity = v + amount;
        }
    }
}

/// Deceleration moves a velocity toward zero and never past it: the
/// magnitude never grows, the sign never flips, a velocity within one step of
/// zero lands exactly on zero, and with a positive step and both flags set a
/// nonzero velocity strictly shrinks.
pub proof fn lemma_decel_apply_toward_zero(d: Deceleration, v: int, magnitude: int, delta: int)
    ensures
        d.pos && d.neg || v == 0 ==> abs_i(spec_decel_apply(d, v, magnitude, delta)) <= abs_i(v),
        d.pos && d.neg || v == 0 ==> (v >= 0 ==> spec_decel_apply(d, v, magnitude, delta) >= 0) && (
        v <= 0 ==> spec_decel_apply(d, v, magnitude, delta) <= 0),
        d.pos && d.neg && v != 0 && abs_i(spec_fx_mul(magnitude, delta)) >= 1 ==> abs_i(
            spec_decel_apply(d, v, magnitude, delta),
        ) < abs_i(v),
        d.pos && d.neg && v != 0 && abs_i(v) <= abs_i(spec_fx_mul(magnitude, delta))
            ==> spec_decel_apply(d, v, magnitude, delta) == 0,
{
    if v != 0 && d.pos && d.neg {
        let dir = spec_decel_dir(d, v);
        let step = abs_i(spec_fx_mul(magnitude, delta));
        let amount = if step < abs_i(v) {
            step
        } else {
            abs_i(v)
        };
        if v > 0 {
            assert(spec_decel_apply(d, v, magnitude, delta) == v - amount);
        } else {
            assert(spec_decel_apply(d, v, magnitude, delta) == v + amount);
        }
    }
}

} // verus!
