//! Saturating pixel arithmetic.
//!
//! All geometry in this crate lives in whole pixels, stored as `i64` and
//! kept inside `[-COORD_LIMIT, COORD_LIMIT]`. The helpers here are total:
//! instead of demanding bounds from callers they clamp their result into
//! that range, which is what the layout rules specify for degenerate
//! coordinates.

use vstd::prelude::*;

verus! {

/// Largest magnitude a stored pixel coordinate or size may have.
pub const COORD_LIMIT: i64 = 1_000_000_000;

/// Largest magnitude a stored per-mille fraction may have.
pub const MILLE_LIMIT: i64 = 1_000_000;

/// Mathematical clamp of `v` into `[-limit, limit]`.
pub open spec fn clamp_to(v: int, limit: int) -> int {
    if v > limit {
        limit
    } else if v < -limit {
        -limit
    } else {
        v
    }
}

/// Clamp into the coordinate range, as a machine integer.
pub open spec fn clamp_px_spec(v: int) -> i64 {
    clamp_to(v, COORD_LIMIT as int) as i64
}

/// Clamp into the per-mille range, as a machine integer.
pub open spec fn clamp_mille_spec(v: int) -> i64 {
    clamp_to(v, MILLE_LIMIT as int) as i64
}

/// Truncating division (round toward zero), for a nonzero divisor.
pub open spec fn tdiv(a: int, d: int) -> int
    recommends
        d != 0,
{
    let q = abs(a) as int / abs(d) as int;
    if (a < 0) != (d < 0) {
        -q
    } else {
        q
    }
}

/// Magnitude of `a` as a spec-level natural number.
pub open spec fn abs(a: int) -> nat {
    if a < 0 {
        (-a) as nat
    } else {
        a as nat
    }
}

/// Whether `v` already lies in the coordinate range.
pub open spec fn px_ok(v: i64) -> bool {
    -COORD_LIMIT <= v <= COORD_LIMIT
}

/// Whether `v` already lies in the per-mille range.
pub open spec fn mille_ok(v: i64) -> bool {
    -MILLE_LIMIT <= v <= MILLE_LIMIT
}

/// Whether `v` lies in the coordinate range, executably.
pub fn px_ok_exec(v: i64) -> (r: bool)
    ensures
        r == px_ok(v),
{
    -COORD_LIMIT <= v && v <= COORD_LIMIT
}

/// Whether `v` lies in the per-mille range, executably.
pub fn mille_ok_exec(v: i64) -> (r: bool)
    ensures
        r == mille_ok(v),
{
    -MILLE_LIMIT <= v && v <= MILLE_LIMIT
}

/// Clamp a raw value into the coordinate range.
pub fn clamp_px(v: i64) -> (r: i64)
    ensures
        r == clamp_px_spec(v as int),
{
    if v > COORD_LIMIT {
        COORD_LIMIT
    } else if v < -COORD_LIMIT {
        -COORD_LIMIT
    } else {
        v
    }
}

/// Clamp a raw value into the per-mille range.
pub fn clamp_mille(v: i64) -> (r: i64)
    ensures
        r == clamp_mille_spec(v as int),
{
    if v > MILLE_LIMIT {
        MILLE_LIMIT
    } else if v < -MILLE_LIMIT {
        -MILLE_LIMIT
    } else {
        v
    }
}

/// Add two pixel values, clamping the sum into the coordinate range.
pub fn add_px(a: i64, b: i64) -> (r: i64)
    ensures
        r == clamp_px_spec(a + b),
{
    match a.checked_add(b) {
        Some(s) => clamp_px(s),
        Option::None => {
            if a > 0 {
                COORD_LIMIT
            } else {
                -COORD_LIMIT
            }
        },
    }
}

/// Add two per-mille values, clamping the sum into the per-mille range.
pub fn add_mille(a: i64, b: i64) -> (r: i64)
    ensures
        r == clamp_mille_spec(a + b),
{
    match a.checked_add(b) {
        Some(s) => clamp_mille(s),
        Option::None => {
            if a > 0 {
                MILLE_LIMIT
            } else {
                -MILLE_LIMIT
            }
        },
    }
}

/// Divide, rounding toward zero.
pub fn div_trunc(a: i64, d: i64) -> (r: i64)
    requires
        d != 0,
        a > i64::MIN,
        d > i64::MIN,
    ensures
        r == tdiv(a as int, d as int),
        abs(r as int) <= abs(a as int),
{
    let am: u64 = if a >= 0 {
        a as u64
    } else {
        (-a) as u64
    };
    let dm: u64 = if d >= 0 {
        d as u64
    } else {
        (-d) as u64
    };
    let q = am / dm;
    proof {
        assert(am / dm <= am) by (nonlinear_arith)
            requires
                dm >= 1,
        ;
    }
    if (a < 0) != (d < 0) {
        -(q as i64)
    } else {
        q as i64
    }
}

} // verus!
