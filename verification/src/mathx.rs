//! Fixed-point vector math in milli-units, and the randomness helpers the
//! gameplay rules draw from.

use rand::Rng;
use vstd::prelude::*;

verus! {

use vstd::arithmetic::mul::{lemma_mul_inequality, lemma_mul_is_commutative};
use vstd::arithmetic::div_mod::lemma_div_is_ordered;

/// Coordinate bound under which squared norms of vectors stay well inside
/// `i64`: three squares of `1_000_000_000` sum to `3 * 10^18 < i64::MAX`.
pub const COORD_LIMIT: i64 = 1_000_000_000;

/// A 3-component vector in fixed-point milli-units (one thousandth of a
/// world unit per step).
#[derive(Clone, Copy, PartialEq, Eq, Structural, Debug)]
pub struct Vec3Fx {
    pub x: i64,
    pub y: i64,
    pub z: i64,
}

impl Vec3Fx {
    /// All components within `[-b, b]`.
    pub open spec fn in_bounds(self, b: int) -> bool {
        &&& -b <= self.x <= b
        &&& -b <= self.y <= b
        &&& -b <= self.z <= b
    }

    pub fn add(self, other: Vec3Fx) -> (r: Vec3Fx)
        requires
            i64::MIN <= self.x + other.x <= i64::MAX,
            i64::MIN <= self.y + other.y <= i64::MAX,
            i64::MIN <= self.z + other.z <= i64::MAX,
        ensures
            r == spec_add(self, other),
            r.x == self.x + other.x,
            r.y == self.y + other.y,
            r.z == self.z + other.z,
    {
        Vec3Fx { x: self.x + other.x, y: self.y + other.y, z: self.z + other.z }
    }

    /// Each component scaled by `num / den`, rounded toward zero.
    pub fn scale(self, num: i64, den: i64) -> (r: Vec3Fx)
        requires
            0 <= num,
            1 <= den,
            -i64::MAX <= self.x * num <= i64::MAX,
            -i64::MAX <= self.y * num <= i64::MAX,
            -i64::MAX <= self.z * num <= i64::MAX,
        ensures
            r == spec_scale(self, num as int, den as int),
    {
        if num == 0 {
            proof {
                assert(self.x * 0 == 0 && self.y * 0 == 0 && self.z * 0 == 0) by (nonlinear_arith);
                assert((-self.x as int) * 0 == 0 && (-self.y as int) * 0 == 0
                    && (-self.z as int) * 0 == 0) by (nonlinear_arith);
                assert(0int / den as int == 0) by (nonlinear_arith)
                    requires
                        1 <= den,
                ;
            }
            Vec3Fx { x: 0, y: 0, z: 0 }
        } else {
            Vec3Fx {
                x: mul_div_trunc(self.x, num, den),
                y: mul_div_trunc(self.y, num, den),
                z: mul_div_trunc(self.z, num, den),
            }
        }
    }

    /// Squared Euclidean norm, exact.
    pub fn sq_norm(self) -> (r: u64)
        requires
            self.in_bounds(COORD_LIMIT as int),
        ensures
            r == spec_sq_norm(self),
    {
        proof {
            lemma_square_bounds(self.x as int, COORD_LIMIT as int);
            lemma_square_bounds(self.y as int, COORD_LIMIT as int);
            lemma_square_bounds(self.z as int, COORD_LIMIT as int);
        }
        (self.x * self.x + self.y * self.y + self.z * self.z) as u64
    }

    /// The vector rescaled to (milli-)unit length, or zero if it is zero.
    pub fn normalize_or_zero(self) -> (r: Vec3Fx)
        requires
            self.in_bounds(COORD_LIMIT as int),
        ensures
            r == spec_normalize_or_zero(self),
            r.in_bounds(1000),
    {
        let sq = self.sq_norm();
        if sq == 0 {
            proof {
                lemma_normalize_bounded(self);
            }
            Vec3Fx { x: 0, y: 0, z: 0 }
        } else {
            proof {
                lemma_square_bounds(self.x as int, COORD_LIMIT as int);
                lemma_square_bounds(self.y as int, COORD_LIMIT as int);
                lemma_square_bounds(self.z as int, COORD_LIMIT as int);
                assert((COORD_LIMIT as int) * (COORD_LIMIT as int)
                    == 1_000_000_000_000_000_000) by (nonlinear_arith);
            }
            let n = isqrt(sq);
            proof {
                if n == 0 {
                    assert((n as int + 1) * (n as int + 1) == 1) by (nonlinear_arith)
                        requires
                            n == 0u64,
                    ;
                }
                assert(n * n <= sq);
                if n > 2_000_000_000 {
                    assert(n * n > 3_000_000_000_000_000_000) by (nonlinear_arith)
                        requires
                            n > 2_000_000_000u64,
                    ;
                }
                lemma_component_le_sqrt(self);
                lemma_normalize_bounded(self);
            }
            Vec3Fx {
                x: mul_div_trunc(self.x, 1000, n as i64),
                y: mul_div_trunc(self.y, 1000, n as i64),
                z: mul_div_trunc(self.z, 1000, n as i64),
            }
        }
    }
}

/// Componentwise sum (meaningful when the exact sums fit in `i64`).
pub open spec fn spec_add(a: Vec3Fx, b: Vec3Fx) -> Vec3Fx {
    Vec3Fx { x: (a.x + b.x) as i64, y: (a.y + b.y) as i64, z: (a.z + b.z) as i64 }
}

pub open spec fn spec_sq_norm(v: Vec3Fx) -> int {
    v.x * v.x + v.y * v.y + v.z * v.z
}

/// Truncating (round-toward-zero) value of `v * num / den`, the semantics of
/// the executable arithmetic.
pub open spec fn spec_mul_div_trunc(v: int, num: int, den: int) -> int {
    if v >= 0 {
        (v * num) / den
    } else {
        -(((-v) * num) / den)
    }
}

pub open spec fn spec_scale(v: Vec3Fx, num: int, den: int) -> Vec3Fx {
    Vec3Fx {
        x: spec_mul_div_trunc(v.x as int, num, den) as i64,
        y: spec_mul_div_trunc(v.y as int, num, den) as i64,
        z: spec_mul_div_trunc(v.z as int, num, den) as i64,
    }
}

/// Floor of the square root of `n`.
pub open spec fn spec_floor_sqrt(n: nat) -> nat
    decreases n,
{
    if n == 0 {
        0
    } else {
        let r = spec_floor_sqrt((n - 1) as nat);
        if (r + 1) * (r + 1) <= n {
            r + 1
        } else {
            r
        }
    }
}

pub open spec fn spec_normalize_or_zero(v: Vec3Fx) -> Vec3Fx {
    if spec_sq_norm(v) == 0 {
        Vec3Fx { x: 0i64, y: 0i64, z: 0i64 }
    } else {
        let n = spec_floor_sqrt(spec_sq_norm(v) as nat);
        spec_scale(v, 1000, n as int)
    }
}

proof fn lemma_square_bounds(x: int, b: int)
    requires
        -b <= x <= b,
        0 <= b,
    ensures
        0 <= x * x <= b * b,
{
    if x >= 0 {
        lemma_mul_inequality(x, b, x);
        lemma_mul_is_commutative(b, x);
        lemma_mul_inequality(x, b, b);
    } else {
        assert(x * x == (-x) * (-x)) by (nonlinear_arith);
        lemma_mul_inequality(-x, b, -x);
        lemma_mul_is_commutative(b, -x);
        lemma_mul_inequality(-x, b, b);
    }
}

/// `spec_floor_sqrt(n)` is indeed the floor of the square root.
pub proof fn lemma_floor_sqrt_bounds(n: nat)
    ensures
        spec_floor_sqrt(n) * spec_floor_sqrt(n) <= n,
        n < (spec_floor_sqrt(n) + 1) * (spec_floor_sqrt(n) + 1),
    decreases n,
{
    if n == 0 {
        let f = spec_floor_sqrt(0);
        assert(f == 0);
        assert(f * f <= 0 && 0 < (f + 1) * (f + 1)) by (nonlinear_arith)
            requires
                f == 0,
        ;
    } else {
        lemma_floor_sqrt_bounds((n - 1) as nat);
        let r = spec_floor_sqrt((n - 1) as nat);
        assert(r * r <= n - 1);
        assert(n - 1 < (r + 1) * (r + 1));
        if (r + 1) * (r + 1) <= n {
            assert(spec_floor_sqrt(n) == r + 1);
            assert(n <= (r + 1) * (r + 1));
            assert((r + 1) * (r + 1) < (r + 1 + 1) * (r + 1 + 1)) by (nonlinear_arith);
            assert(n < (spec_floor_sqrt(n) + 1) * (spec_floor_sqrt(n) + 1));
        } else {
            assert(spec_floor_sqrt(n) == r);
            assert(r * r <= n);
            assert(n < (r + 1) * (r + 1));
        }
    }
}

/// Any `r` with `r^2 <= n < (r+1)^2` equals `spec_floor_sqrt(n)`.
proof fn lemma_floor_sqrt_unique(n: nat, r: nat)
    requires
        r * r <= n,
        n < (r + 1) * (r + 1),
    ensures
        r == spec_floor_sqrt(n),
{
    let f = spec_floor_sqrt(n);
    lemma_floor_sqrt_bounds(n);
    if r < f {
        assert((r + 1) * (r + 1) <= f * f) by (nonlinear_arith)
            requires
                r + 1 <= f,
        ;
    }
    if f < r {
        assert((f + 1) * (f + 1) <= r * r) by (nonlinear_arith)
            requires
                f + 1 <= r,
        ;
    }
}

/// Each component's magnitude is at most the floor square root of the
/// squared norm.
proof fn lemma_component_le_sqrt(v: Vec3Fx)
    ensures
        -spec_floor_sqrt(spec_sq_norm(v) as nat) as int <= v.x
            <= spec_floor_sqrt(spec_sq_norm(v) as nat) as int,
        -spec_floor_sqrt(spec_sq_norm(v) as nat) as int <= v.y
            <= spec_floor_sqrt(spec_sq_norm(v) as nat) as int,
        -spec_floor_sqrt(spec_sq_norm(v) as nat) as int <= v.z
            <= spec_floor_sqrt(spec_sq_norm(v) as nat) as int,
{
    let sq = spec_sq_norm(v);
    assert(v.x * v.x >= 0 && v.y * v.y >= 0 && v.z * v.z >= 0) by (nonlinear_arith);
    let f = spec_floor_sqrt(sq as nat);
    lemma_floor_sqrt_bounds(sq as nat);
    lemma_abs_component_le_sqrt(v.x as int, sq, f as int);
    lemma_abs_component_le_sqrt(v.y as int, sq, f as int);
    lemma_abs_component_le_sqrt(v.z as int, sq, f as int);
}

proof fn lemma_abs_component_le_sqrt(c: int, sq: int, f: int)
    requires
        c * c <= sq,
        0 <= f,
        sq < (f + 1) * (f + 1),
    ensures
        -f <= c <= f,
{
    if c > f {
        assert((f + 1) * (f + 1) <= c * c) by (nonlinear_arith)
            requires
                0 <= f,
                f + 1 <= c,
        ;
    }
    if c < -f {
        assert((f + 1) * (f + 1) <= c * c) by (nonlinear_arith)
            requires
                0 <= f,
                c <= -(f + 1),
        ;
    }
}

/// Rescaling a vector by `1000 / floor_sqrt(sq_norm)` keeps every component
/// within `[-1000, 1000]`.
proof fn lemma_normalize_bounded(v: Vec3Fx)
    ensures
        spec_normalize_or_zero(v).in_bounds(1000),
{
    let sq = spec_sq_norm(v);
    if sq != 0 {
        let n = spec_floor_sqrt(sq as nat) as int;
        lemma_floor_sqrt_bounds(sq as nat);
        assert(v.x * v.x >= 0 && v.y * v.y >= 0 && v.z * v.z >= 0) by (nonlinear_arith);
        assert(n >= 1) by {
            if n == 0 {
                assert((n + 1) * (n + 1) == 1) by (nonlinear_arith)
                    requires
                        n == 0,
                ;
            }
        }
        lemma_component_le_sqrt(v);
        lemma_scaled_component_bounded(v.x as int, n);
        lemma_scaled_component_bounded(v.y as int, n);
        lemma_scaled_component_bounded(v.z as int, n);
    }
}

proof fn lemma_scaled_component_bounded(c: int, n: int)
    requires
        1 <= n,
        -n <= c <= n,
    ensures
        -1000 <= spec_mul_div_trunc(c, 1000, n) <= 1000,
{
    if c >= 0 {
        lemma_mul_inequality(c, n, 1000);
        lemma_div_is_ordered(c * 1000, n * 1000, n);
        assert(n * 1000 / n == 1000) by (nonlinear_arith)
            requires
                1 <= n,
        ;
        assert(c * 1000 / n >= 0) by {
            vstd::arithmetic::div_mod::lemma_div_pos_is_pos(c * 1000, n);
        }
    } else {
        lemma_mul_inequality(-c, n, 1000);
        lemma_div_is_ordered((-c) * 1000, n * 1000, n);
        assert(n * 1000 / n == 1000) by (nonlinear_arith)
            requires
                1 <= n,
        ;
        assert((-c) * 1000 / n >= 0) by {
            vstd::arithmetic::div_mod::lemma_div_pos_is_pos((-c) * 1000, n);
        }
    }
}

proof fn lemma_mul_div_trunc_bounded(v: int, num: int, den: int, b: int, c: int)
    requires
        -b <= v <= b,
        0 <= b,
        0 <= num,
        1 <= den,
        0 <= c,
        b * num <= c * den,
    ensures
        -c <= spec_mul_div_trunc(v, num, den) <= c,
{
    assert(c * den / den == c) by (nonlinear_arith)
        requires
            1 <= den,
    ;
    if v >= 0 {
        lemma_mul_inequality(v, b, num);
        lemma_div_is_ordered(v * num, c * den, den);
        assert(v * num >= 0) by (nonlinear_arith)
            requires
                v >= 0,
                num >= 0,
        ;
        vstd::arithmetic::div_mod::lemma_div_pos_is_pos(v * num, den);
    } else {
        lemma_mul_inequality(-v, b, num);
        lemma_div_is_ordered((-v) * num, c * den, den);
        assert((-v) * num >= 0) by (nonlinear_arith)
            requires
                v < 0,
                num >= 0,
        ;
        vstd::arithmetic::div_mod::lemma_div_pos_is_pos((-v) * num, den);
    }
}

/// A vector within `b` scaled by `num / den` stays within `c`, provided
/// `b * num <= c * den`.
pub proof fn lemma_scale_bounded(v: Vec3Fx, num: int, den: int, b: int, c: int)
    requires
        v.in_bounds(b),
        0 <= b,
        0 <= num,
        1 <= den,
        0 <= c,
        b * num <= c * den,
    ensures
        spec_scale(v, num, den).in_bounds(c),
{
    lemma_mul_div_trunc_bounded(v.x as int, num, den, b, c);
    lemma_mul_div_trunc_bounded(v.y as int, num, den, b, c);
    lemma_mul_div_trunc_bounded(v.z as int, num, den, b, c);
}

/// `v * num / den` rounded toward zero, computed without overflow.
pub fn mul_div_trunc(v: i64, num: i64, den: i64) -> (r: i64)
    requires
        1 <= num,
        1 <= den,
        -i64::MAX <= v * num <= i64::MAX,
    ensures
        r == spec_mul_div_trunc(v as int, num as int, den as int),
{
    if v >= 0 {
        proof {
            vstd::arithmetic::div_mod::lemma_div_pos_is_pos(v * num, den as int);
            lemma_div_is_ordered(v * num, i64::MAX as int, den as int);
            assert(i64::MAX as int / den as int <= i64::MAX);
        }
        (v * num) / den
    } else {
        proof {
            assert(v * num <= v) by (nonlinear_arith)
                requires
                    v < 0,
                    1 <= num,
            ;
            assert((-v) * num == -(v * num)) by (nonlinear_arith);
            vstd::arithmetic::div_mod::lemma_div_pos_is_pos((-v) * num, den as int);
            lemma_div_is_ordered((-v) * num, i64::MAX as int, den as int);
            assert(i64::MAX as int / den as int <= i64::MAX);
        }
        -(((-v) * num) / den)
    }
}

/// Floor of the square root, by binary search.
pub fn isqrt(n: u64) -> (r: u64)
    requires
        n < 0x4000_0000_0000_0000,
    ensures
        r == spec_floor_sqrt(n as nat),
        r * r <= n < (r + 1) * (r + 1),
{
    let mut lo: u64 = 0;
    let mut hi: u64 = 0x8000_0000;
    assert(hi * hi == 0x4000_0000_0000_0000) by (nonlinear_arith)
        requires
            hi == 0x8000_0000u64,
    ;
    while lo + 1 < hi
        invariant
            lo < hi <= 0x8000_0000,
            lo * lo <= n,
            n < hi * hi,
        decreases hi - lo,
    {
        let mid: u64 = lo + (hi - lo) / 2;
        assert(lo < mid < hi);
        assert(mid * mid < 0x4000_0000_0000_0000) by (nonlinear_arith)
            requires
                mid < 0x8000_0000,
        ;
        if mid * mid <= n {
            lo = mid;
        } else {
            hi = mid;
        }
    }
    proof {
        lemma_floor_sqrt_unique(n as nat, lo as nat);
    }
    lo
}

#[verifier::external_type_specification]
#[verifier::external_body]
pub struct ExThreadRng(rand::rngs::ThreadRng);

/// Relies on rand::thread_rng: a handle to the thread-local random number
/// generator.
#[verifier::external_body]
pub fn thread_rng_handle() -> rand::rngs::ThreadRng {
    rand::thread_rng()
}

/// Relies on rand::Rng::gen_range: a uniform draw from `lo..hi`, which
/// panics only when the range is empty.
#[verifier::external_body]
pub fn gen_range_i64(rng: &mut rand::rngs::ThreadRng, lo: i64, hi: i64) -> (r: i64)
    requires
        lo < hi,
    ensures
        lo <= r < hi,
{
    rng.gen_range(lo..hi)
}

/// A random direction drawn from the unit cube: each component uniform over
/// `[-1, 1)` world units, in milli-units.
pub fn random_vec3(rng: &mut rand::rngs::ThreadRng) -> (r: Vec3Fx)
    ensures
        -1000 <= r.x < 1000,
        -1000 <= r.y < 1000,
        -1000 <= r.z < 1000,
{
    let x = gen_range_i64(rng, -1000, 1000);
    let y = gen_range_i64(rng, -1000, 1000);
    let z = gen_range_i64(rng, -1000, 1000);
    Vec3Fx { x, y, z }
}

} // verus!
