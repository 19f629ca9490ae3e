//! Single-precision numbers as their 32-bit patterns.
//!
//! The shader reads the uniform and vertex buffers as IEEE-754 binary32
//! values. Here such a value is the `u32` that holds its bits: one sign bit,
//! eight bits of biased exponent, twenty-three bits of fraction.

use vstd::prelude::*;
use vstd::arithmetic::power2::pow2;
use vstd::arithmetic::power2::lemma2_to64;
use vstd::arithmetic::power2::lemma_pow2_adds;
use vstd::arithmetic::power2::lemma_pow2_unfold;
use vstd::arithmetic::power2::lemma_pow2_pos;
use vstd::arithmetic::power2::lemma_pow2_strictly_increases;
use vstd::arithmetic::div_mod::lemma_fundamental_div_mod;
use vstd::arithmetic::div_mod::lemma_fundamental_div_mod_converse;
use vstd::arithmetic::div_mod::lemma_mod_pos_bound;

verus! {

/// The pattern of `+0.0`.
pub const ZERO: u32 = 0;

/// The pattern of `-0.0`.
pub const NEGATIVE_ZERO: u32 = 0x8000_0000;

/// The pattern of `1.0`.
pub const ONE: u32 = 0x3F80_0000;

/// The biased exponent of a pattern whose sign bit is clear.
pub open spec fn exponent_field(bits: u32) -> int {
    bits as int / 0x80_0000
}

/// The fraction bits of a pattern.
pub open spec fn fraction_field(bits: u32) -> int {
    bits as int % 0x80_0000
}

/// Two to the power 23 times the number that `bits` stands for, where `bits`
/// is a positive normal pattern of a number that is at least one.
pub open spec fn scaled_value(bits: u32) -> int
    recommends
        127 <= exponent_field(bits) <= 254,
{
    (0x80_0000 + fraction_field(bits)) * pow2((exponent_field(bits) - 127) as nat)
}

/// The position of the highest set bit of `n`, and 0 for 0.
pub open spec fn floor_log2(n: nat) -> nat
    decreases n,
{
    if n <= 1 {
        0
    } else {
        1 + floor_log2(n / 2)
    }
}

/// The whole number nearest to `a / d`, a tie going to the even one.
pub open spec fn half_even_quotient(a: int, d: int) -> int
    recommends
        0 <= a,
        0 < d,
{
    let q = a / d;
    let r = a % d;
    if 2 * r < d || (2 * r == d && q % 2 == 0) {
        q
    } else {
        q + 1
    }
}

/// The single-precision pattern of `n`, for `n` below two to the power 32.
///
/// With `e` the position of the highest bit of `n`, the significand is
/// `n / 2^(e - 23)` rounded to a whole number, half to even; it is stored
/// without its hidden bit above the biased exponent. A significand that
/// rounding has carried to two to the power 24 runs over into the exponent,
/// which gives the pattern of the next power of two.
pub open spec fn nearest_single(n: nat) -> u32 {
    if n == 0 {
        0
    } else {
        let e = floor_log2(n);
        let m = half_even_quotient((n * 0x80_0000) as int, pow2(e) as int);
        ((e + 127) * 0x80_0000 + (m - 0x80_0000)) as u32
    }
}

/// `bits` is `n` rounded to the nearest single-precision number, a tie going
/// to the one whose last fraction bit is clear.
///
/// Between two neighbouring powers of two the numbers that can be
/// represented lie at equal distance, `2^(floor_log2(n) - 23)`; the result is
/// at most half of that away from `n`. Both the distance and the step are
/// taken times two to the power 23 here, which keeps them whole.
pub open spec fn rounds_to(n: nat, bits: u32) -> bool {
    if n == 0 {
        bits == 0
    } else {
        let gap = pow2(floor_log2(n)) as int;
        let off = scaled_value(bits) - n * 0x80_0000;
        &&& 127 <= exponent_field(bits) <= 159
        &&& -gap <= 2 * off <= gap
        &&& (2 * off == gap || 2 * off == -gap) ==> fraction_field(bits) % 2 == 0
    }
}

/// A number between a power of two and the next has that power's exponent as
/// the position of its highest bit.
pub proof fn lemma_floor_log2_between(n: nat, e: nat)
    requires
        pow2(e) <= n < 2 * pow2(e),
    ensures
        floor_log2(n) == e,
    decreases e,
{
    lemma2_to64();
    if e == 0 {
    } else {
        lemma_pow2_unfold(e);
        lemma_pow2_pos((e - 1) as nat);
        lemma_floor_log2_between(n / 2, (e - 1) as nat);
    }
}

/// A positive number lies between the power of two of its highest bit and
/// the next power.
pub proof fn lemma_floor_log2_bounds(n: nat)
    requires
        n >= 1,
    ensures
        pow2(floor_log2(n)) <= n < 2 * pow2(floor_log2(n)),
    decreases n,
{
    lemma2_to64();
    if n == 1 {
    } else {
        lemma_floor_log2_bounds(n / 2);
        lemma_pow2_unfold(floor_log2(n));
    }
}

/// The pattern of exponent `e` and significand `m`, where `m` may have
/// reached two to the power 24 by rounding up.
proof fn lemma_pack(e: nat, m: int, bits: u32)
    requires
        e <= 31,
        0x80_0000 <= m <= 0x100_0000,
        bits == (e + 127) * 0x80_0000 + (m - 0x80_0000),
    ensures
        127 <= exponent_field(bits) <= 159,
        scaled_value(bits) == m * pow2(e),
        fraction_field(bits) % 2 == m % 2,
{
    if m < 0x100_0000 {
        assert(exponent_field(bits) == e + 127);
        assert(fraction_field(bits) == m - 0x80_0000);
    } else {
        assert(exponent_field(bits) == e + 128);
        assert(fraction_field(bits) == 0);
        lemma_pow2_unfold(e + 1);
        assert(0x80_0000 * (2 * pow2(e)) == 0x100_0000 * pow2(e)) by (nonlinear_arith);
    }
}

/// The rounded significand of a number whose highest bit is at `e`: it has
/// 24 bits or is two to the power 24, it is at most half a step away from
/// the number, and it is even where it is exactly half a step away. Up to
/// `e == 23` nothing is rounded.
proof fn lemma_significand(n: nat, e: nat)
    requires
        pow2(e) <= n < 2 * pow2(e),
    ensures
        ({
            let d = pow2(e) as int;
            let a = (n * 0x80_0000) as int;
            let m = half_even_quotient(a, d);
            &&& 0x80_0000 <= m <= 0x100_0000
            &&& -d <= 2 * (m * d - a) <= d
            &&& (2 * (m * d - a) == d || 2 * (m * d - a) == -d) ==> m % 2 == 0
            &&& e <= 23 ==> m * d == a
        }),
{
    let d = pow2(e) as int;
    let a = (n * 0x80_0000) as int;
    let q = a / d;
    let r = a % d;
    let m = half_even_quotient(a, d);
    lemma_pow2_pos(e);
    lemma_fundamental_div_mod(a, d);
    lemma_mod_pos_bound(a, d);
    assert(a == q * d + r) by (nonlinear_arith)
        requires
            a == d * q + r,
    ;
    assert(0x80_0000 <= q < 0x100_0000) by (nonlinear_arith)
        requires
            a == q * d + r,
            0 <= r < d,
            d * 0x80_0000 <= a < d * 0x100_0000,
    ;
    assert(m * d - a == (m - q) * d - r) by (nonlinear_arith)
        requires
            a == q * d + r,
    ;
    if m == q {
        assert((m - q) * d == 0);
    } else {
        assert((m - q) * d == d) by (nonlinear_arith)
            requires
                m == q + 1,
        ;
    }
    if e <= 23 {
        lemma2_to64();
        lemma_pow2_adds(e, (23 - e) as nat);
        let k = pow2((23 - e) as nat) as int;
        assert(a == (n * k) * d + 0) by (nonlinear_arith)
            requires
                a == n * 0x80_0000,
                d * k == 0x80_0000,
        ;
        lemma_fundamental_div_mod_converse(a, d, (n * k) as int, 0);
    }
}

/// The pattern that `nearest_single` gives is the nearest one, ties to
/// even, and it stands for `n` itself where `n` has at most 24 bits.
pub proof fn lemma_nearest_single_rounds(n: nat)
    requires
        n < 0x1_0000_0000,
    ensures
        rounds_to(n, nearest_single(n)),
        0 < n < 0x100_0000 ==> scaled_value(nearest_single(n)) == n * 0x80_0000,
{
    if n > 0 {
        let e = floor_log2(n);
        lemma_floor_log2_bounds(n);
        lemma2_to64();
        if e >= 32 {
            if e > 32 {
                lemma_pow2_strictly_increases(32, e);
            }
            assert(false);
        }
        if n < 0x100_0000 && e >= 24 {
            if e > 24 {
                lemma_pow2_strictly_increases(24, e);
            }
            assert(false);
        }
        lemma_significand(n, e);
        let m = half_even_quotient((n * 0x80_0000) as int, pow2(e) as int);
        lemma_pack(e, m, nearest_single(n));
    }
}

/// There is one nearest pattern only: whatever rounds `n` to nearest, ties to
/// even, is the pattern that `nearest_single` gives.
pub proof fn lemma_rounds_to_unique(n: nat, bits: u32)
    requires
        n < 0x1_0000_0000,
        rounds_to(n, bits),
    ensures
        bits == nearest_single(n),
{
    if n > 0 {
        let e = floor_log2(n);
        let g = pow2(e) as int;
        let t = (n * 0x80_0000) as int;
        lemma_floor_log2_bounds(n);
        lemma2_to64();
        if e >= 32 {
            if e > 32 {
                lemma_pow2_strictly_increases(32, e);
            }
            assert(false);
        }
        lemma_significand(n, e);
        let m = half_even_quotient(t, g);
        let x = (exponent_field(bits) - 127) as nat;
        let f = fraction_field(bits);
        let sig = 0x80_0000 + f;
        let px = pow2(x) as int;
        let v = sig * px;
        assert(v == scaled_value(bits));
        assert(bits == (x + 127) * 0x80_0000 + f);
        // The pattern has the exponent of `n`, or the next with no fraction.
        let k: int = if x == e {
            sig
        } else {
            0x100_0000
        };
        if x < e {
            lemma_pow2_unfold(e);
            if x < e - 1 {
                lemma_pow2_strictly_increases(x, (e - 1) as nat);
            }
            assert(2 * v <= sig * g) by (nonlinear_arith)
                requires
                    v == sig * px,
                    2 * px <= g,
                    sig >= 0,
            ;
            assert(sig * g <= 0xFF_FFFF * g) by (nonlinear_arith)
                requires
                    sig <= 0xFF_FFFF,
                    g >= 0,
            ;
            assert(sig * g == 0xFF_FFFF * g);
            assert(sig == 0xFF_FFFF) by (nonlinear_arith)
                requires
                    sig * g == 0xFF_FFFF * g,
                    g > 0,
            ;
            assert(false);
        } else if x > e + 1 {
            lemma_pow2_unfold(e + 1);
            lemma_pow2_unfold(e + 2);
            if x > e + 2 {
                lemma_pow2_strictly_increases(e + 2, x);
            }
            assert(v >= 0x80_0000 * (4 * g)) by (nonlinear_arith)
                requires
                    v == sig * px,
                    sig >= 0x80_0000,
                    px >= 4 * g,
                    g > 0,
            ;
            assert(false);
        } else if x == e + 1 {
            lemma_pow2_unfold(e + 1);
            assert(v == 2 * (sig * g)) by (nonlinear_arith)
                requires
                    v == sig * px,
                    px == 2 * g,
            ;
            assert(sig <= 0x80_0000) by (nonlinear_arith)
                requires
                    4 * (sig * g) < g + 0x200_0000 * g,
                    g > 0,
            ;
            assert(v == k * g) by (nonlinear_arith)
                requires
                    v == 2 * (sig * g),
                    sig == 0x80_0000,
                    k == 0x100_0000,
            ;
        }
        assert(v == k * g);
        assert(k % 2 == f % 2);
        assert(bits == (e + 127) * 0x80_0000 + (k - 0x80_0000));
        // Two multiples of the step that are both within half a step of `n`
        // are equal, or they are neighbours and both ties.
        assert(k * g - m * g == (k - m) * g) by (nonlinear_arith);
        assert(-1 <= k - m <= 1) by (nonlinear_arith)
            requires
                -2 * g <= 2 * ((k - m) * g) <= 2 * g,
                g > 0,
        ;
        if k == m + 1 {
            assert((k - m) * g == g) by (nonlinear_arith)
                requires
                    k == m + 1,
            ;
            assert(false);
        }
        if k == m - 1 {
            assert((k - m) * g == -g) by (nonlinear_arith)
                requires
                    k == m - 1,
            ;
            assert(false);
        }
    }
}

/// The pattern of a number of at most 24 bits whose highest bit is at `e`:
/// the biased exponent above the number shifted up to 24 bits, less its
/// hidden bit.
pub proof fn lemma_nearest_single_exact(n: nat, e: nat)
    requires
        pow2(e) <= n < 2 * pow2(e),
        e <= 23,
    ensures
        nearest_single(n) == (e + 127) * 0x80_0000 + n * pow2((23 - e) as nat) - 0x80_0000,
{
    lemma2_to64();
    lemma_pow2_pos(e);
    lemma_floor_log2_between(n, e);
    lemma_significand(n, e);
    lemma_pow2_adds(e, (23 - e) as nat);
    let d = pow2(e) as int;
    let k = pow2((23 - e) as nat) as int;
    let m = half_even_quotient((n * 0x80_0000) as int, d);
    assert(m == n * k) by (nonlinear_arith)
        requires
            m * d == n * 0x80_0000,
            d * k == 0x80_0000,
            d > 0,
    ;
}

/// The patterns of the numbers that the quad and the uniform record are
/// made of.
pub proof fn lemma_nearest_single_values()
    ensures
        nearest_single(0) == ZERO,
        nearest_single(1) == ONE,
        nearest_single(128) == 0x4300_0000,
        nearest_single(256) == 0x4380_0000,
        nearest_single(360) == 0x43B4_0000,
        nearest_single(640) == 0x4420_0000,
{
    lemma2_to64();
    lemma_nearest_single_exact(1, 0);
    lemma_nearest_single_exact(128, 7);
    lemma_nearest_single_exact(256, 8);
    lemma_nearest_single_exact(360, 8);
    lemma_nearest_single_exact(640, 9);
}

/// The single-precision pattern of `n`: what `n as` a single-precision
/// number holds.
pub fn from_u32(n: u32) -> (bits: u32)
    ensures
        bits == nearest_single(n as nat),
{
    if n == 0 {
        return 0;
    }
    let wide: u64 = n as u64;
    let mut e: u32 = 0;
    let mut p: u64 = 1;
    proof {
        lemma2_to64();
    }
    while 2 * p <= wide
        invariant
            p == pow2(e as nat),
            1 <= p <= wide,
            wide == n,
            e <= 31,
        decreases wide - p,
    {
        proof {
            lemma_pow2_unfold((e + 1) as nat);
            if e == 31 {
                lemma2_to64();
            }
        }
        p = 2 * p;
        e = e + 1;
    }
    proof {
        lemma_floor_log2_between(n as nat, e as nat);
        lemma_significand(n as nat, e as nat);
    }
    let numerator: u64 = wide * 0x80_0000;
    let q: u64 = numerator / p;
    let r: u64 = numerator % p;
    let significand: u64 = if 2 * r < p || (2 * r == p && q % 2 == 0) {
        q
    } else {
        q + 1
    };
    ((e + 127) as u64 * 0x80_0000 + (significand - 0x80_0000)) as u32
}

} // verus!
