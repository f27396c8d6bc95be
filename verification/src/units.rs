//! Fixed-point units, domain bounds, and the small exact-arithmetic
//! helpers the integration kernel is built from.

use vstd::prelude::*;
use vstd::arithmetic::div_mod::{lemma_div_is_ordered, lemma_div_by_multiple};
use vstd::arithmetic::mul::lemma_mul_inequality;

verus! {

/// Raw fixed-point units per world unit, and per second of simulated time.
pub const SCALE: u64 = 1_000_000;

/// Largest magnitude a position or velocity component may take, in raw
/// units.  Kernel updates clamp components into `[-COORD_LIMIT, COORD_LIMIT]`;
/// this saturation is the fixed-point analogue of a float running off to
/// infinity, and it keeps every intermediate product inside 128 bits.
pub const COORD_LIMIT: i64 = 1_000_000_000_000;

/// Largest admissible mass, in raw units.
pub const MASS_LIMIT: u64 = 1_000_000_000_000;

/// Largest admissible gravitational constant, in raw units.
pub const GRAV_LIMIT: u64 = 1_000_000_000_000;

/// Largest admissible update frequency (also the tick interval number in
/// milliseconds).  Keeping it at most `SCALE` keeps the nominal step size
/// at least one raw unit.
pub const FREQ_LIMIT: u64 = 1_000_000;

/// Cap on the magnitude of a single pairwise velocity contribution, in raw
/// units.  Together with the coordinate clamp this bounds every sum the
/// kernel forms; it only engages for bodies that are extremely close or
/// extremely heavy.
pub const PAIR_ACCEL_LIMIT: u64 = 1_000_000_000_000_000_000;

/// A coordinate clamped into the representable range.
pub open spec fn clamp_coord(x: int) -> int {
    if x > COORD_LIMIT as int {
        COORD_LIMIT as int
    } else if x < -(COORD_LIMIT as int) {
        -(COORD_LIMIT as int)
    } else {
        x
    }
}

/// Clamp a wide intermediate back into the coordinate range.
pub fn clamp_coord_exec(x: i128) -> (r: i64)
    ensures
        r as int == clamp_coord(x as int),
{
    if x > COORD_LIMIT as i128 {
        COORD_LIMIT
    } else if x < -(COORD_LIMIT as i128) {
        -COORD_LIMIT
    } else {
        x as i64
    }
}

/// Floor of the square root: the unique `r` with `r * r <= n < (r + 1) * (r + 1)`.
pub open spec fn sqrt_floor(n: nat) -> nat
    decreases n,
{
    if n == 0 {
        0
    } else {
        let p = sqrt_floor((n - 1) as nat);
        if (p + 1) * (p + 1) <= n {
            p + 1
        } else {
            p
        }
    }
}

/// `sqrt_floor(n)` really is the floor of the square root of `n`.
pub proof fn lemma_sqrt_floor_props(n: nat)
    ensures
        sqrt_floor(n) * sqrt_floor(n) <= n,
        n < (sqrt_floor(n) + 1) * (sqrt_floor(n) + 1),
    decreases n,
{
    if n == 0 {
        assert(sqrt_floor(n) == 0);
        assert(n < (sqrt_floor(n) + 1) * (sqrt_floor(n) + 1)) by (nonlinear_arith)
            requires
                n == 0,
                sqrt_floor(n) == 0,
        ;
    } else {
        lemma_sqrt_floor_props((n - 1) as nat);
        let p = sqrt_floor((n - 1) as nat);
        assert(p * p <= n - 1);
        assert(n - 1 < (p + 1) * (p + 1));
        if (p + 1) * (p + 1) <= n {
            assert(sqrt_floor(n) == p + 1);
            assert(n < (p + 2) * (p + 2)) by (nonlinear_arith)
                requires
                    n - 1 < (p + 1) * (p + 1),
                    p >= 0,
            ;
        } else {
            assert(sqrt_floor(n) == p);
        }
    }
}

/// The floor square root is unique.
pub proof fn lemma_sqrt_floor_unique(n: nat, r: nat)
    requires
        r * r <= n,
        n < (r + 1) * (r + 1),
    ensures
        r == sqrt_floor(n),
{
    lemma_sqrt_floor_props(n);
    let s = sqrt_floor(n);
    if r < s {
        assert(false) by (nonlinear_arith)
            requires
                r < s,
                s * s <= n,
                n < (r + 1) * (r + 1),
        ;
    }
    if s < r {
        assert(false) by (nonlinear_arith)
            requires
                s < r,
                r * r <= n,
                n < (s + 1) * (s + 1),
        ;
    }
}

/// Binary-search integer square root.
pub fn isqrt(n: u128) -> (r: u128)
    ensures
        r as nat == sqrt_floor(n as nat),
        r * r <= n,
{
    let cap: u128 = 0xFFFF_FFFF_FFFF_FFFF;
    let mut lo: u128 = 0;
    let mut hi: u128 = if n < cap {
        n
    } else {
        cap
    };
    proof {
        if n < cap {
            assert(n < (n + 1) * (n + 1)) by (nonlinear_arith);
        }
    }
    while lo < hi
        invariant
            lo <= hi,
            hi <= 0xFFFF_FFFF_FFFF_FFFFu128,
            lo * lo <= n,
            n < (hi + 1) * (hi + 1),
        decreases hi - lo,
    {
        let mid: u128 = lo + (hi - lo + 1) / 2;
        proof {
            assert(mid * mid < 0xFFFF_FFFF_FFFF_FFFF_FFFF_FFFF_FFFF_FFFFu128) by (nonlinear_arith)
                requires
                    mid <= 0xFFFF_FFFF_FFFF_FFFFu128,
            ;
        }
        if mid * mid <= n {
            lo = mid;
        } else {
            hi = mid - 1;
        }
    }
    proof {
        lemma_sqrt_floor_unique(n as nat, lo as nat);
    }
    lo
}

/// Magnitude-scaled quotient with the sign of `a`: truncates toward zero,
/// the way the kernel applies a unit direction to a scalar factor.
pub open spec fn scaled_quotient(a: int, q: int, d: int) -> int {
    if a >= 0 {
        (a * q) / d
    } else {
        -(((-a) * q) / d)
    }
}

/// The quotient magnitude never exceeds `q` when `|a| <= d`.
pub proof fn lemma_scaled_quotient_bound(a: int, q: int, d: int)
    requires
        d >= 1,
        q >= 0,
        -d <= a <= d,
    ensures
        -q <= scaled_quotient(a, q, d) <= q,
{
    if a >= 0 {
        lemma_mul_inequality(a, d, q);
        lemma_div_is_ordered(a * q, d * q, d);
        lemma_div_by_multiple(q, d);
        vstd::arithmetic::mul::lemma_mul_is_commutative(d, q);
        vstd::arithmetic::mul::lemma_mul_nonnegative(a, q);
        vstd::arithmetic::div_mod::lemma_div_pos_is_pos(a * q, d);
    } else {
        lemma_mul_inequality(-a, d, q);
        lemma_div_is_ordered((-a) * q, d * q, d);
        lemma_div_by_multiple(q, d);
        vstd::arithmetic::mul::lemma_mul_is_commutative(d, q);
        vstd::arithmetic::mul::lemma_mul_nonnegative(-a, q);
        vstd::arithmetic::div_mod::lemma_div_pos_is_pos((-a) * q, d);
    }
}

/// Exact executable form of `scaled_quotient` over machine integers.
pub fn scaled_quotient_exec(a: i64, q: u64, d: u64) -> (r: i64)
    requires
        d >= 1,
        -0x7FFF_FFFF_FFFF_FFFF <= a,
        scaled_quotient(a as int, q as int, d as int) <= 0x7FFF_FFFF_FFFF_FFFF,
        -0x7FFF_FFFF_FFFF_FFFF <= scaled_quotient(a as int, q as int, d as int),
    ensures
        r as int == scaled_quotient(a as int, q as int, d as int),
{
    if a >= 0 {
        let an: u128 = a as u128;
        let qn: u128 = q as u128;
        proof {
            assert(an * qn <= 0x7FFF_FFFF_FFFF_FFFFu128 * 0xFFFF_FFFF_FFFF_FFFFu128)
                by (nonlinear_arith)
                requires
                    an <= 0x7FFF_FFFF_FFFF_FFFFu128,
                    qn <= 0xFFFF_FFFF_FFFF_FFFFu128,
            ;
        }
        let m: u128 = an * qn / (d as u128);
        m as i64
    } else {
        let neg: u64 = (-a) as u64;
        let an: u128 = neg as u128;
        let qn: u128 = q as u128;
        proof {
            assert(an * qn <= 0x7FFF_FFFF_FFFF_FFFFu128 * 0xFFFF_FFFF_FFFF_FFFFu128)
                by (nonlinear_arith)
                requires
                    an <= 0x7FFF_FFFF_FFFF_FFFFu128,
                    qn <= 0xFFFF_FFFF_FFFF_FFFFu128,
            ;
        }
        let m: u128 = an * qn / (d as u128);
        -(m as i64)
    }
}

} // verus!
