//! Fixed-point measures and the arithmetic of view angles.

use vstd::prelude::*;

verus! {

/// One degree, or one map unit, in fixed point.
pub const UNIT: i64 = 1_000_000;

/// Half a turn in fixed point.
pub const HALF_TURN: i64 = 180_000_000;

/// A full turn in fixed point.
pub const FULL_TURN: i64 = 360_000_000;

/// A point or a displacement in map space, each axis in fixed point.
#[derive(Debug, Clone, Copy, PartialEq, Eq, Structural)]
pub struct Vector {
    pub x: i64,
    pub y: i64,
    pub z: i64,
}

/// The horizontal part of a position.
#[derive(Debug, Clone, Copy, PartialEq, Eq, Structural)]
pub struct VectorXY {
    pub x: i64,
    pub y: i64,
}

/// Where a player looks: yaw and pitch in fixed-point degrees.
#[derive(Debug, Clone, Copy, PartialEq, Eq, Structural)]
pub struct ViewAngles {
    pub yaw: i64,
    pub pitch: i64,
}

impl Vector {
    /// The origin.
    pub open spec fn zero() -> Vector {
        Vector { x: 0, y: 0, z: 0 }
    }

    /// The origin.
    pub fn origin() -> (v: Vector)
        ensures
            v == Vector::zero(),
    {
        Vector { x: 0, y: 0, z: 0 }
    }
}

/// A difference of yaws folded into the half-open turn `(-180, 180]` degrees.
pub open spec fn wrap_half_turn(diff: int) -> int {
    let r = diff % (FULL_TURN as int);
    if r > HALF_TURN {
        r - FULL_TURN
    } else {
        r
    }
}

/// The signed turn that leads from yaw `from` to yaw `to` the short way round.
pub open spec fn yaw_delta(from: int, to: int) -> int {
    wrap_half_turn(to - from)
}

/// The turn between two yaws lies in `(-180, 180]` degrees, the turn from a
/// yaw to itself is none, and a full turn more or less makes no difference.
pub proof fn lemma_yaw_delta(from: int, to: int)
    ensures
        -(HALF_TURN as int) < yaw_delta(from, to) <= HALF_TURN,
        yaw_delta(from, from) == 0,
        yaw_delta(from, to + FULL_TURN) == yaw_delta(from, to),
        yaw_delta(from + FULL_TURN, to) == yaw_delta(from, to),
{
    let full = FULL_TURN as int;
    assert((to + full - from) % full == (to - from) % full) by {
        vstd::arithmetic::div_mod::lemma_mod_add_multiples_vanish(to - from, full);
    }
    assert((to - (from + full)) % full == (to - from) % full) by {
        vstd::arithmetic::div_mod::lemma_mod_sub_multiples_vanish(to - from, full);
    }
}

/// `x` limited to what an `i64` holds.
pub open spec fn saturate(x: int) -> int {
    if x < i64::MIN {
        i64::MIN as int
    } else if x > i64::MAX {
        i64::MAX as int
    } else {
        x
    }
}

/// The quotient of `x` by a positive `d`, rounded toward zero.
pub open spec fn quotient_toward_zero(x: int, d: int) -> int {
    if x >= 0 {
        x / d
    } else {
        -((-x) / d)
    }
}

/// The number of ticks a change is spread over: at least one.
pub open spec fn effective_ticks(tick_delta: u32) -> int {
    if tick_delta < 1 {
        1
    } else {
        tick_delta as int
    }
}

/// The per-tick rate of a change that took `tick_delta` ticks.
pub open spec fn per_tick(change: int, tick_delta: u32) -> int {
    quotient_toward_zero(change, effective_ticks(tick_delta))
}

/// The magnitude of `x`.
pub open spec fn magnitude(x: int) -> int {
    if x < 0 {
        -x
    } else {
        x
    }
}

/// Divides toward zero by a positive divisor.
pub fn divide_toward_zero(x: i128, d: i128) -> (q: i128)
    requires
        d > 0,
        x > i128::MIN,
    ensures
        q == quotient_toward_zero(x as int, d as int),
        magnitude(q as int) <= magnitude(x as int),
{
    if x >= 0 {
        let q: i128 = x / d;
        assert(q <= x) by (nonlinear_arith)
            requires
                x >= 0,
                d > 0,
                q == x / d,
        ;
        q
    } else {
        let n: i128 = -x;
        let q: i128 = n / d;
        assert(q <= n) by (nonlinear_arith)
            requires
                n >= 0,
                d > 0,
                q == n / d,
        ;
        -q
    }
}

/// Folds a difference of yaws into `(-180, 180]` degrees.
fn fold_half_turn(diff: i128) -> (r: i64)
    ensures
        r == wrap_half_turn(diff as int),
        -(HALF_TURN as int) < r <= HALF_TURN,
{
    let full: i128 = 360_000_000;
    let m: i128 = diff % full;
    let r: i128 = if m < 0 {
        m + full
    } else {
        m
    };
    assert(r == (diff as int) % (FULL_TURN as int));
    if r > 180_000_000 {
        (r - full) as i64
    } else {
        r as i64
    }
}

/// The change of orientation between two samples, as a rate per tick.
///
/// The yaw difference is taken the short way round the circle, so a turn from
/// 350 to 10 degrees counts as 20 degrees; the pitch difference is taken as it
/// stands, limited to the range of the representation. A `tick_delta` of zero
/// counts as one tick. Both rates are rounded toward zero.
pub fn viewangle_delta(
    curr_viewangle: i64,
    curr_pitchangle: i64,
    prev_viewangle: i64,
    prev_pitchangle: i64,
    tick_delta: u32,
) -> (deltas: (i64, i64))
    ensures
        deltas.0 == per_tick(yaw_delta(prev_viewangle as int, curr_viewangle as int), tick_delta),
        deltas.1 == per_tick(saturate(curr_pitchangle - prev_pitchangle), tick_delta),
        magnitude(deltas.0 as int) <= HALF_TURN,
{
    let ticks: i128 = if tick_delta < 1 {
        1
    } else {
        tick_delta as i128
    };
    let yaw: i64 = fold_half_turn(curr_viewangle as i128 - prev_viewangle as i128);
    let va_delta: i128 = divide_toward_zero(yaw as i128, ticks);
    let pitch: i128 = curr_pitchangle as i128 - prev_pitchangle as i128;
    let limited: i128 = if pitch < i64::MIN as i128 {
        i64::MIN as i128
    } else if pitch > i64::MAX as i128 {
        i64::MAX as i128
    } else {
        pitch
    };
    let pa_delta: i128 = divide_toward_zero(limited, ticks);
    (va_delta as i64, pa_delta as i64)
}

/// The entity slot that a handle refers to.
///
/// A handle carries the slot in its low eleven bits and a serial number above
/// them.
pub fn handle_to_entid(handle: u32) -> (entid: u32)
    ensures
        entid == handle & 0x7FF,
        entid == handle % 2048,
        entid < 2048,
{
    let entid: u32 = handle & 0x7FF;
    assert(handle & 0x7FF == handle % 2048) by (bit_vector);
    entid
}

} // verus!
