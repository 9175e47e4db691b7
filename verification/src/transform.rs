//! Spatial components shared by every entity: a 2-D position and a 2-D
//! velocity, together with the fixed-point coordinate conventions.
//!
//! Coordinates are integers counted in micro-pixels (`SCALE` micro-pixels to
//! one pixel), velocities in micro-pixels per millisecond, and frame deltas in
//! milliseconds.  All motion arithmetic saturates at `COORD_LIMIT`, far beyond
//! any on-screen value, so every operation stays inside `i64`.
use vstd::prelude::*;

verus! {

/// Micro-pixels per pixel: the fixed-point scale of every coordinate.
pub const SCALE: i64 = 1_000_000;

/// Saturation bound on coordinates and velocities (4 million pixels).
pub const COORD_LIMIT: i64 = 4_000_000_000_000;

/// Largest frame delta a tick accepts, in milliseconds; longer deltas are
/// clamped so that displacement products stay inside `i64`.
pub const MAX_DT_MS: i64 = 1000;

#[derive(Clone, Copy, Debug, PartialEq, Eq, Structural)]
pub struct Position {
    pub x: i64,
    pub y: i64,
}

#[derive(Clone, Copy, Debug, PartialEq, Eq, Structural)]
pub struct Velocity {
    pub x: i64,
    pub y: i64,
}

/// A coordinate or velocity that the motion arithmetic keeps in range.
pub open spec fn coord_ok(c: int) -> bool {
    -COORD_LIMIT <= c <= COORD_LIMIT
}

pub open spec fn position_ok(p: Position) -> bool {
    coord_ok(p.x as int) && coord_ok(p.y as int)
}

pub open spec fn velocity_ok(v: Velocity) -> bool {
    coord_ok(v.x as int) && coord_ok(v.y as int)
}

/// Saturates a mathematical value to the coordinate range.
pub open spec fn clamped(v: int) -> int {
    if v < -COORD_LIMIT {
        -COORD_LIMIT as int
    } else if v > COORD_LIMIT {
        COORD_LIMIT as int
    } else {
        v
    }
}

/// One integration step: the coordinate advanced by `v * dt`, saturated.
pub open spec fn step_coord(c: int, v: int, dt: int) -> int {
    clamped(c + v * dt)
}

/// A frame delta clamped to `[0, MAX_DT_MS]` milliseconds.
pub open spec fn clamped_dt(dt: int) -> int {
    if dt < 0 {
        0
    } else if dt > MAX_DT_MS {
        MAX_DT_MS as int
    } else {
        dt
    }
}

/// Advances `c` by `v * dt`, saturating at the coordinate bound.
pub fn advance_coord(c: i64, v: i64, dt: i64) -> (r: i64)
    requires
        coord_ok(c as int),
        coord_ok(v as int),
        0 <= dt <= MAX_DT_MS,
    ensures
        r == step_coord(c as int, v as int, dt as int),
        coord_ok(r as int),
{
    proof {
        assert(-COORD_LIMIT * MAX_DT_MS <= (v as int) * (dt as int) <= COORD_LIMIT * MAX_DT_MS)
            by (nonlinear_arith)
            requires
                -COORD_LIMIT <= v as int <= COORD_LIMIT,
                0 <= dt as int <= MAX_DT_MS,
        ;
    }
    let d: i64 = v * dt;
    let m: i64 = c + d;
    if m < -COORD_LIMIT {
        -COORD_LIMIT
    } else if m > COORD_LIMIT {
        COORD_LIMIT
    } else {
        m
    }
}

} // verus!
