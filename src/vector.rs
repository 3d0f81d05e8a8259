//! Two-dimensional integer vectors, and the integer square root that the
//! friction step uses to measure a vector's length.

use vstd::prelude::*;

verus! {

/// A vector with signed integer coordinates.
#[derive(Clone, Copy, Debug, PartialEq, Eq, Structural)]
pub struct Vector2d {
    pub x: i64,
    pub y: i64,
}

/// `r` is the largest integer whose square does not exceed `n`.
pub open spec fn is_floor_sqrt(n: int, r: int) -> bool {
    0 <= r && r * r <= n && n < (r + 1) * (r + 1)
}

pub open spec fn in_i64(v: int) -> bool {
    i64::MIN <= v <= i64::MAX
}

pub open spec fn abs_int(v: int) -> int {
    if v < 0 { -v } else { v }
}

/// The floor of the square root of a non-negative integer.
pub open spec fn sqrt_floor(n: int) -> int {
    choose|r: int| is_floor_sqrt(n, r)
}

/// The floor square root is unique.
pub proof fn lemma_floor_sqrt_unique(n: int, a: int, b: int)
    requires
        is_floor_sqrt(n, a),
        is_floor_sqrt(n, b),
    ensures
        a == b,
{
    if a < b {
        assert((a + 1) * (a + 1) <= b * b) by (nonlinear_arith)
            requires 0 <= a, a + 1 <= b;
    } else if b < a {
        assert((b + 1) * (b + 1) <= a * a) by (nonlinear_arith)
            requires 0 <= b, b + 1 <= a;
    }
}

/// Largest `r` with `r * r <= n`.
pub fn floor_sqrt(n: u128) -> (r: u64)
    ensures
        is_floor_sqrt(n as int, r as int),
        r == sqrt_floor(n as int),
{
    // Search in [lo, hi): lo*lo <= n < hi*hi.
    let mut lo: u128 = 0;
    let mut hi: u128 = 0x1_0000_0000_0000_0000;
    assert(hi * hi > u128::MAX) by (nonlinear_arith)
        requires hi == 0x1_0000_0000_0000_0000u128;
    while hi - lo > 1
        invariant
            lo < hi <= 0x1_0000_0000_0000_0000,
            lo * lo <= n,
            n < hi * hi,
        decreases hi - lo,
    {
        let mid: u128 = lo + (hi - lo) / 2;
        assert(mid * mid <= u128::MAX) by (nonlinear_arith)
            requires mid < 0x1_0000_0000_0000_0000u128;
        if mid * mid <= n {
            lo = mid;
        } else {
            hi = mid;
        }
    }
    assert(hi == lo + 1);
    proof {
        let c = sqrt_floor(n as int);
        assert(is_floor_sqrt(n as int, lo as int));
        lemma_floor_sqrt_unique(n as int, c, lo as int);
    }
    lo as u64
}

/// One coordinate after friction: its magnitude shrinks by the friction
/// share `amount * |c| / len` (rounded down), never below zero, and the sign
/// is kept.
pub open spec fn damp_axis_spec(c: int, amount: int, len: int) -> int {
    let a = abs_int(c);
    let f = (amount * a) / len;
    let m = if a > f { a - f } else { 0 };
    if c < 0 { -m } else { m }
}

/// A velocity after one friction step of strength `amount`: the friction
/// vector points along the velocity with length `amount`, measured against
/// the velocity's length rounded down to an integer. A zero vector has no
/// direction and is left as it is.
pub open spec fn damped(v: Vector2d, amount: u64) -> Vector2d {
    let n = v.spec_length_squared();
    if n == 0 {
        v
    } else {
        let len = sqrt_floor(n);
        Vector2d {
            x: damp_axis_spec(v.x as int, amount as int, len) as i64,
            y: damp_axis_spec(v.y as int, amount as int, len) as i64,
        }
    }
}

/// Friction on one coordinate, given the vector's length `len`.
pub fn damp_axis(c: i64, amount: u64, len: u64) -> (r: i64)
    requires
        len > 0,
    ensures
        r == damp_axis_spec(c as int, amount as int, len as int),
        abs_int(r as int) <= abs_int(c as int),
{
    let a: u128 = magnitude(c) as u128;
    assert(amount as u128 * a <= u128::MAX) by (nonlinear_arith)
        requires amount <= u64::MAX, a <= 0x8000_0000_0000_0000u128;
    let f: u128 = (amount as u128 * a) / (len as u128);
    let m: u128 = if a > f { a - f } else { 0 };
    if c < 0 {
        (0i128 - m as i128) as i64
    } else {
        m as i64
    }
}

/// Absolute value of a coordinate, which always fits in 64 unsigned bits.
pub fn magnitude(v: i64) -> (r: u64)
    ensures
        r == abs_int(v as int),
{
    if v < 0 {
        (0i128 - v as i128) as u64
    } else {
        v as u64
    }
}

impl Vector2d {
    pub fn new(x: i64, y: i64) -> (r: Vector2d)
        ensures
            r.x == x && r.y == y,
    {
        Vector2d { x, y }
    }

    pub open spec fn sum_fits(self, rhs: Vector2d) -> bool {
        in_i64(self.x + rhs.x) && in_i64(self.y + rhs.y)
    }

    pub open spec fn spec_add(self, rhs: Vector2d) -> Vector2d {
        Vector2d { x: (self.x + rhs.x) as i64, y: (self.y + rhs.y) as i64 }
    }

    /// Whether `self + rhs` stays within the coordinate range.
    pub fn can_add(&self, rhs: &Vector2d) -> (r: bool)
        ensures
            r == self.sum_fits(*rhs),
    {
        self.x.checked_add(rhs.x).is_some() && self.y.checked_add(rhs.y).is_some()
    }

    /// Coordinate-wise sum.
    pub fn add(&self, rhs: &Vector2d) -> (r: Vector2d)
        requires
            self.sum_fits(*rhs),
        ensures
            r == self.spec_add(*rhs),
    {
        Vector2d { x: self.x + rhs.x, y: self.y + rhs.y }
    }

    pub open spec fn spec_length_squared(self) -> int {
        self.x * self.x + self.y * self.y
    }

    /// `x * x + y * y`, which always fits in 128 bits.
    pub fn length_squared(&self) -> (r: u128)
        ensures
            r == self.spec_length_squared(),
    {
        let ax: u128 = magnitude(self.x) as u128;
        let ay: u128 = magnitude(self.y) as u128;
        assert(ax * ax <= 0x4000_0000_0000_0000_0000_0000_0000_0000) by (nonlinear_arith)
            requires ax <= 0x8000_0000_0000_0000u128;
        assert(ay * ay <= 0x4000_0000_0000_0000_0000_0000_0000_0000) by (nonlinear_arith)
            requires ay <= 0x8000_0000_0000_0000u128;
        assert(ax * ax == self.x * self.x) by (nonlinear_arith)
            requires ax == abs_int(self.x as int);
        assert(ay * ay == self.y * self.y) by (nonlinear_arith)
            requires ay == abs_int(self.y as int);
        ax * ax + ay * ay
    }

    /// The vector after one friction step of strength `amount`.
    pub fn damp(&self, amount: u64) -> (r: Vector2d)
        ensures
            r == damped(*self, amount),
    {
        let n = self.length_squared();
        if n == 0 {
            *self
        } else {
            let len = floor_sqrt(n);
            assert(len > 0) by (nonlinear_arith)
                requires
                    n as int >= 1,
                    (n as int) < (len as int + 1) * (len as int + 1),
                    len >= 0;
            Vector2d { x: damp_axis(self.x, amount, len), y: damp_axis(self.y, amount, len) }
        }
    }
}

/// Every non-negative integer has a floor square root.
pub proof fn lemma_floor_sqrt_exists(n: int)
    requires
        n >= 0,
    ensures
        is_floor_sqrt(n, sqrt_floor(n)),
    decreases n,
{
    if n == 0 {
        assert(is_floor_sqrt(0, 0));
    } else {
        lemma_floor_sqrt_exists(n - 1);
        let r = sqrt_floor(n - 1);
        if (r + 1) * (r + 1) <= n {
            assert((r + 1) * (r + 1) == n) by (nonlinear_arith)
                requires (r + 1) * (r + 1) <= n, n - 1 < (r + 1) * (r + 1);
            assert(n < (r + 2) * (r + 2)) by (nonlinear_arith)
                requires (r + 1) * (r + 1) == n, r >= 0;
            assert(is_floor_sqrt(n, r + 1));
        } else {
            assert(is_floor_sqrt(n, r));
        }
    }
}

/// Friction moves each coordinate toward zero and never past it; a zero
/// vector, having no direction, is left as it is, and so is any vector under
/// zero friction.
pub proof fn lemma_friction_toward_zero(v: Vector2d, amount: u64)
    ensures
        abs_int(damped(v, amount).x as int) <= abs_int(v.x as int),
        abs_int(damped(v, amount).y as int) <= abs_int(v.y as int),
        v.x >= 0 ==> damped(v, amount).x >= 0,
        v.x <= 0 ==> damped(v, amount).x <= 0,
        v.y >= 0 ==> damped(v, amount).y >= 0,
        v.y <= 0 ==> damped(v, amount).y <= 0,
        v.spec_length_squared() == 0 ==> damped(v, amount) == v,
        amount == 0 ==> damped(v, amount) == v,
{
    let n = v.spec_length_squared();
    assert(n >= 0) by (nonlinear_arith)
        requires n == v.x * v.x + v.y * v.y;
    if n != 0 {
        lemma_floor_sqrt_exists(n);
        let len = sqrt_floor(n);
        assert(len > 0) by (nonlinear_arith)
            requires n >= 1, n < (len + 1) * (len + 1), len >= 0;
        let ax = abs_int(v.x as int);
        let ay = abs_int(v.y as int);
        assert(amount * ax >= 0) by (nonlinear_arith)
            requires amount >= 0, ax >= 0;
        assert(amount * ay >= 0) by (nonlinear_arith)
            requires amount >= 0, ay >= 0;
        if amount == 0 {
            assert(amount * ax == 0);
            assert(amount * ay == 0);
        }
    }
}

} // verus!
