//! Integer 2D vectors, axis-aligned rectangles and a monotonic delta timer.
//!
//! All times in this crate are absolute timestamps in milliseconds; elapsed
//! time is always clamped at zero so that a clock that jumps backwards never
//! produces a negative duration.

use vstd::prelude::*;

verus! {

/// Coordinates are kept well inside the `i32` range so that the motion
/// interpolation arithmetic in the rest of the crate cannot overflow.
pub const COORD_LIMIT: i32 = 0x1000_0000;

/// An integer 2D point or vector.
#[derive(Debug, Clone, Copy, PartialEq, Eq, Structural, Hash)]
pub struct Vec2I {
    pub x: i32,
    pub y: i32,
}

/// An axis-aligned rectangle: top-left corner and dimensions.
#[derive(Debug, Clone, Copy, PartialEq, Eq, Structural, Hash)]
pub struct RectI {
    pub pos: Vec2I,
    pub dim: Vec2I,
}

impl Vec2I {
    pub fn new(x: i32, y: i32) -> (r: Self)
        ensures
            r.x == x,
            r.y == y,
    {
        Self { x, y }
    }

    /// Both components lie strictly inside the safe coordinate band.
    pub open spec fn in_coord_band(self) -> bool {
        -COORD_LIMIT <= self.x <= COORD_LIMIT && -COORD_LIMIT <= self.y <= COORD_LIMIT
    }

    /// Componentwise sum.
    pub fn add(self, rhs: Self) -> (r: Self)
        requires
            i32::MIN <= self.x + rhs.x <= i32::MAX,
            i32::MIN <= self.y + rhs.y <= i32::MAX,
        ensures
            r.x == self.x + rhs.x,
            r.y == self.y + rhs.y,
    {
        Self { x: self.x + rhs.x, y: self.y + rhs.y }
    }

    /// Componentwise difference.
    pub fn sub(self, rhs: Self) -> (r: Self)
        requires
            i32::MIN <= self.x - rhs.x <= i32::MAX,
            i32::MIN <= self.y - rhs.y <= i32::MAX,
        ensures
            r.x == self.x - rhs.x,
            r.y == self.y - rhs.y,
    {
        Self { x: self.x - rhs.x, y: self.y - rhs.y }
    }

    /// Componentwise scaling.
    pub fn mul(self, rhs: i32) -> (r: Self)
        requires
            i32::MIN <= self.x * rhs <= i32::MAX,
            i32::MIN <= self.y * rhs <= i32::MAX,
        ensures
            r.x == self.x * rhs,
            r.y == self.y * rhs,
    {
        Self { x: self.x * rhs, y: self.y * rhs }
    }

    /// Componentwise division by a non-zero scalar, truncated toward zero
    /// as machine division behaves.
    pub fn div(self, rhs: i32) -> (r: Self)
        requires
            rhs != 0,
            !(self.x == i32::MIN && rhs == -1),
            !(self.y == i32::MIN && rhs == -1),
        ensures
            r.x == div_trunc(self.x as int, rhs as int),
            r.y == div_trunc(self.y as int, rhs as int),
    {
        Self { x: div_trunc_i32(self.x, rhs), y: div_trunc_i32(self.y, rhs) }
    }
}

/// Executable counterpart of [`div_trunc`], computed over magnitudes.
fn div_trunc_i32(a: i32, b: i32) -> (r: i32)
    requires
        b != 0,
        !(a == i32::MIN && b == -1),
    ensures
        r == div_trunc(a as int, b as int),
{
    let wa: i64 = a as i64;
    let wb: i64 = b as i64;
    let ua: i64 = if wa < 0 {
        -wa
    } else {
        wa
    };
    let ub: i64 = if wb < 0 {
        -wb
    } else {
        wb
    };
    let q: i64 = ua / ub;
    proof {
        assert(ub >= 2 ==> q <= 0x4000_0000) by (nonlinear_arith)
            requires
                0 <= ua <= 0x8000_0000,
                1 <= ub,
                q == ua / ub,
        ;
        assert(ub == 1 ==> q == ua) by (nonlinear_arith)
            requires
                0 <= ua,
                1 <= ub,
                q == ua / ub,
        ;
    }
    if (wa < 0) == (wb < 0) {
        q as i32
    } else {
        (-q) as i32
    }
}

/// Quotient truncated toward zero, as machine division behaves (the spec
/// operator `/` rounds toward negative infinity instead).
pub open spec fn div_trunc(a: int, b: int) -> int {
    let q = (if a >= 0 {
        a
    } else {
        -a
    }) / (if b >= 0 {
        b
    } else {
        -b
    });
    if (a >= 0) == (b >= 0) {
        q
    } else {
        -q
    }
}

impl RectI {
    /// The rectangle `inner` lies entirely inside `self`
    /// (both taken with non-negative dimensions).
    pub open spec fn contains_rect(self, inner: RectI) -> bool {
        &&& self.pos.x <= inner.pos.x
        &&& self.pos.y <= inner.pos.y
        &&& inner.pos.x + inner.dim.x <= self.pos.x + self.dim.x
        &&& inner.pos.y + inner.dim.y <= self.pos.y + self.dim.y
    }

    /// Grow the rectangle horizontally by `d` on the left and on the right.
    pub fn extend_lr(&mut self, d: i32)
        requires
            i32::MIN <= old(self).pos.x - d <= i32::MAX,
            i32::MIN <= 2 * d <= i32::MAX,
            i32::MIN <= old(self).dim.x + 2 * d <= i32::MAX,
        ensures
            final(self).pos.x == old(self).pos.x - d,
            final(self).pos.y == old(self).pos.y,
            final(self).dim.x == old(self).dim.x + 2 * d,
            final(self).dim.y == old(self).dim.y,
    {
        self.pos.x = self.pos.x - d;
        self.dim.x = self.dim.x + 2 * d;
    }

    /// Grow the rectangle upward by `d`, keeping its bottom edge in place.
    pub fn extend_up(&mut self, d: i32)
        requires
            i32::MIN <= old(self).pos.y - d <= i32::MAX,
            i32::MIN <= old(self).dim.y + d <= i32::MAX,
        ensures
            final(self).pos.x == old(self).pos.x,
            final(self).pos.y == old(self).pos.y - d,
            final(self).dim.x == old(self).dim.x,
            final(self).dim.y == old(self).dim.y + d,
    {
        self.pos.y = self.pos.y - d;
        self.dim.y = self.dim.y + d;
    }
}

/// Milliseconds elapsed from `t0` to `now`, clamped at zero when the clock
/// has moved backwards.
pub open spec fn elapsed_ms(t0: u64, now: u64) -> int {
    if now >= t0 {
        now - t0
    } else {
        0
    }
}

/// Executable counterpart of [`elapsed_ms`].
pub fn elapsed_clamped(t0: u64, now: u64) -> (r: u64)
    ensures
        r == elapsed_ms(t0, now),
{
    if now >= t0 {
        now - t0
    } else {
        0
    }
}

/// Tracks the timestamp of the previous frame and hands out the clamped
/// time step between consecutive frames.
#[derive(Debug, Clone, Copy, PartialEq, Eq, Structural)]
pub struct DeltaTimer {
    pub last: u64,
}

impl DeltaTimer {
    pub fn new(now: u64) -> (r: Self)
        ensures
            r.last == now,
    {
        Self { last: now }
    }

    /// Advance to `now` and return the clamped time since the previous tick.
    pub fn tick(&mut self, now: u64) -> (dt: u64)
        ensures
            dt == elapsed_ms(old(self).last, now),
            final(self).last == now,
    {
        let dt = elapsed_clamped(self.last, now);
        self.last = now;
        dt
    }
}

} // verus!
