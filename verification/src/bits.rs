//! Exact IEEE-754 encoding of small non-negative integers as
//! double-precision bit patterns.
//!
//! The lazy vector backing generates elements on demand; its arithmetic
//! sequences produce integer values, which become doubles. Every
//! integer below 2^53 has an exact double encoding: for a non-zero `x`
//! with highest set bit `p`, the pattern is the biased exponent
//! `1023 + p` in the top eleven value bits and `x`, shifted so its
//! leading bit falls off, in the 52 mantissa bits. Zero encodes as the
//! all-zero pattern.

use vstd::arithmetic::power2::lemma2_to64;
use vstd::arithmetic::power2::lemma2_to64_rest;
use vstd::arithmetic::power2::lemma_pow2_adds;
use vstd::arithmetic::power2::lemma_pow2_pos;
use vstd::arithmetic::power2::lemma_pow2_strictly_increases;
use vstd::arithmetic::power2::pow2;
use vstd::prelude::*;

verus! {

/// The position of the highest set bit of `x` (zero for `x <= 1`).
pub open spec fn msb_index(x: nat) -> nat
    decreases x,
{
    if x <= 1 {
        0
    } else {
        1 + msb_index(x / 2)
    }
}

/// The highest set bit brackets the value: `2^msb <= x < 2^(msb+1)`.
pub proof fn lemma_msb_bounds(x: nat)
    requires
        x >= 1,
    ensures
        pow2(msb_index(x)) <= x < pow2(msb_index(x) + 1),
    decreases x,
{
    if x <= 1 {
        lemma2_to64();
    } else {
        lemma_msb_bounds(x / 2);
        let m = msb_index(x / 2);
        lemma_pow2_adds(m, 1);
        lemma_pow2_adds(m + 1, 1);
        lemma2_to64();
        assert(pow2(m + 1) == 2 * pow2(m));
        assert(pow2(m + 2) == 2 * pow2(m + 1));
        assert(x >= 2 * (x / 2));
        assert(x < 2 * (x / 2) + 2);
    }
}

/// The IEEE-754 double-precision bit pattern of the integer `x`, exact
/// for `x < 2^53`.
pub open spec fn double_bits_spec(x: nat) -> u64
    recommends
        x < pow2(53),
{
    if x == 0 {
        0u64
    } else {
        let p = msb_index(x);
        (((1023 + p) * pow2(52) + (x * pow2((52 - p) as nat) - pow2(52))) as u64)
    }
}

/// `2^e` as a machine word.
pub fn pow2_u64(e: u64) -> (r: u64)
    requires
        e < 64,
    ensures
        r as nat == pow2(e as nat),
{
    let mut r: u64 = 1;
    let mut i: u64 = 0;
    proof {
        lemma2_to64();
    }
    while i < e
        invariant
            i <= e < 64,
            r as nat == pow2(i as nat),
        decreases e - i,
    {
        proof {
            lemma_pow2_adds(i as nat, 1);
            lemma2_to64();
            lemma_pow2_strictly_increases((i + 1) as nat, 64);
            lemma2_to64_rest();
        }
        r = r * 2;
        i = i + 1;
    }
    r
}

/// Encode the integer `x` as its exact double-precision bit pattern.
pub fn double_bits_of(x: u64) -> (r: u64)
    requires
        x < 0x20_0000_0000_0000,
    ensures
        r == double_bits_spec(x as nat),
{
    proof {
        lemma2_to64_rest();
        assert(pow2(53) == 0x20_0000_0000_0000);
    }
    if x == 0 {
        return 0;
    }
    proof {
        lemma_msb_bounds(x as nat);
        if msb_index(x as nat) >= 53 {
            if msb_index(x as nat) > 53 {
                lemma_pow2_strictly_increases(53, msb_index(x as nat));
            }
            assert(false);
        }
    }
    let mut p: u64 = 0;
    let mut t: u64 = x;
    while t >= 2
        invariant
            t >= 1,
            msb_index(x as nat) == p + msb_index(t as nat),
            msb_index(x as nat) <= 52,
            t <= x,
        decreases t,
    {
        proof {
            assert(msb_index(t as nat) == 1 + msb_index((t / 2) as nat));
        }
        t = t / 2;
        p = p + 1;
    }
    proof {
        assert(msb_index(t as nat) == 0);
        assert(p == msb_index(x as nat));
        lemma_msb_bounds(x as nat);
        // The value fits below 2^53, so its highest bit is at most 52.
        if p > 52 {
            lemma_pow2_strictly_increases(53, p as nat);
            assert(false);
        }
        if p == 53 {
            assert(false);
        }
    }
    let scale = pow2_u64(52 - p);
    let two52 = pow2_u64(52);
    proof {
        let pn = p as nat;
        let xn = x as nat;
        lemma_pow2_adds(pn, (52 - pn) as nat);
        lemma_pow2_adds(pn + 1, (52 - pn) as nat);
        lemma_pow2_pos((52 - pn) as nat);
        assert(xn * pow2((52 - pn) as nat) >= pow2(pn) * pow2((52 - pn) as nat))
            by (nonlinear_arith)
            requires
                xn >= pow2(pn),
                pow2((52 - pn) as nat) > 0,
        ;
        assert(xn * pow2((52 - pn) as nat) < pow2(pn + 1) * pow2((52 - pn) as nat))
            by (nonlinear_arith)
            requires
                xn < pow2(pn + 1),
                pow2((52 - pn) as nat) > 0,
        ;
        assert(pow2(pn + 1 + ((52 - pn) as nat)) == pow2(53));
        lemma2_to64_rest();
    }
    let mantissa_full = x * scale;
    proof {
        assert((1023 + p as nat) * pow2(52) < 2048 * pow2(52)) by (nonlinear_arith)
            requires
                p < 1025,
                pow2(52) > 0,
        ;
        lemma_pow2_adds(11, 52);
        lemma2_to64();
        assert(pow2(11) == 2048);
        assert(pow2(63) == 0x8000_0000_0000_0000);
    }
    let exponent_part = (1023 + p) * two52;
    exponent_part + (mantissa_full - two52)
}

} // verus!
