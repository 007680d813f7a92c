//! Positive, normal, finite IEEE-754 doubles, held as their bit patterns, and
//! their product with a small integer under round-to-nearest, ties-to-even.
use vstd::prelude::*;
use vstd::arithmetic::power2::{pow2, lemma2_to64, lemma_pow2_unfold};
use vstd::arithmetic::div_mod::{lemma_div_denominator, lemma_fundamental_div_mod_converse};

verus! {

/// `2^52`, the weight of the implicit leading bit of a significand.
pub const IMPLICIT_BIT: u64 = 0x10_0000_0000_0000;

/// The largest biased exponent of a finite double.
pub const MAX_BIASED_EXPONENT: u64 = 2046;

/// The bits of `1.0`.
pub const ONE_BITS: u64 = 0x3ff0_0000_0000_0000;

/// The biased exponent of a double with a clear sign bit.
pub open spec fn biased_exponent(bits: u64) -> int {
    (bits as int) / (IMPLICIT_BIT as int)
}

/// The significand of a normal double, implicit bit included: the double
/// stands for `significand * 2^(biased_exponent - 1075)`.
pub open spec fn significand(bits: u64) -> int {
    IMPLICIT_BIT as int + (bits as int) % (IMPLICIT_BIT as int)
}

/// The bits of a positive, normal, finite double.
pub open spec fn is_positive_normal(bits: u64) -> bool {
    1 <= biased_exponent(bits) <= MAX_BIASED_EXPONENT
}

/// How many low bits of `p` fall outside 53 significant bits.
pub open spec fn dropped_bits(p: nat) -> nat
    decreases p,
{
    if p < 2 * IMPLICIT_BIT {
        0
    } else {
        1 + dropped_bits(p / 2)
    }
}

/// `p >= 2^52` rounded to 53 significant bits, ties to even: a significand in
/// `[2^52, 2^53)` and the number of doublings that scale it back to `p`.
pub open spec fn round_to_significand(p: nat) -> (int, int) {
    let s = dropped_bits(p);
    let q: int = p as int / pow2(s) as int;
    let r: int = p as int % pow2(s) as int;
    let rounded: int = if 2 * r > pow2(s) || (2 * r == pow2(s) && q % 2 == 1) {
        q + 1
    } else {
        q
    };
    if rounded == 2 * IMPLICIT_BIT {
        (IMPLICIT_BIT as int, s + 1 as int)
    } else {
        (rounded, s as int)
    }
}

/// The double product of `bits` and `k`, rounded to nearest with ties to
/// even, or `None` when it overflows to infinity.
pub open spec fn times_spec(bits: u64, k: nat) -> Option<u64> {
    let (m, s) = round_to_significand((significand(bits) * k) as nat);
    let e = biased_exponent(bits) + s;
    if e <= MAX_BIASED_EXPONENT {
        Some((e * IMPLICIT_BIT + (m - IMPLICIT_BIT)) as u64)
    } else {
        None
    }
}

/// The double product of a positive normal double and `1 <= k <= 256`, as
/// floating-point multiplication rounds it, or `None` on overflow.
pub fn times(bits: u64, k: u64) -> (r: Option<u64>)
    requires
        is_positive_normal(bits),
        1 <= k <= 256,
    ensures
        r == times_spec(bits, k as nat),
        r matches Some(b) ==> is_positive_normal(b),
{
    let m = IMPLICIT_BIT + bits % IMPLICIT_BIT;
    let e = bits / IMPLICIT_BIT;
    assert(m * k < 0x2000_0000_0000_0000 && m * k >= IMPLICIT_BIT) by (nonlinear_arith)
        requires
            IMPLICIT_BIT <= m < 2 * IMPLICIT_BIT,
            1 <= k <= 256,
    ;
    let p = m * k;
    let mut pow: u64 = 1;
    let mut s: u64 = 0;
    proof {
        lemma2_to64();
    }
    while p / pow >= 2 * IMPLICIT_BIT
        invariant
            pow == pow2(s as nat),
            1 <= pow < 512,
            s < pow,
            IMPLICIT_BIT <= p < 0x2000_0000_0000_0000,
            p / pow >= IMPLICIT_BIT,
            dropped_bits(p as nat) == s + dropped_bits((p / pow) as nat),
        decreases p / pow,
    {
        assert(pow < 256) by (nonlinear_arith)
            requires
                p / pow >= 2 * IMPLICIT_BIT,
                p < 0x2000_0000_0000_0000,
                pow >= 1,
        ;
        proof {
            lemma_div_denominator(p as int, pow as int, 2);
            lemma_pow2_unfold((s + 1) as nat);
        }
        pow = pow * 2;
        s = s + 1;
    }
    let q = p / pow;
    let r = p % pow;
    let rounded = if 2 * r > pow || (2 * r == pow && q % 2 == 1) {
        q + 1
    } else {
        q
    };
    let (m1, s1) = if rounded == 2 * IMPLICIT_BIT {
        (IMPLICIT_BIT, s + 1)
    } else {
        (rounded, s)
    };
    if e + s1 > MAX_BIASED_EXPONENT {
        return None;
    }
    let e1 = e + s1;
    let out = e1 * IMPLICIT_BIT + (m1 - IMPLICIT_BIT);
    proof {
        lemma_fundamental_div_mod_converse(
            out as int,
            IMPLICIT_BIT as int,
            e1 as int,
            (m1 - IMPLICIT_BIT) as int,
        );
    }
    Some(out)
}

} // verus!
