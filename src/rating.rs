use vstd::prelude::*;

use vstd::arithmetic::div_mod::lemma_basic_div;
use vstd::arithmetic::mul::lemma_mul_inequality;
use vstd::arithmetic::power2::{lemma2_to64, lemma2_to64_rest, lemma_pow2_strictly_increases, lemma_pow2_unfold, pow2};

verus! {

/// The exponent field of IEEE-754 single-precision `bits`.
pub open spec fn exponent_of(bits: u32) -> u32 {
    (bits / 0x80_0000) % 0x100
}

/// The significand of a normal number with `bits`, the hidden bit included.
pub open spec fn significand_of(bits: u32) -> nat {
    (bits % 0x80_0000 + 0x80_0000) as nat
}

/// What rounding the single-precision float with `bits` to the nearest
/// integer (halves away from zero) and converting it to `u32` gives, where
/// the conversion saturates and maps NaN to zero. A normal number is
/// `significand * 2^(exponent - 150)`; negative numbers and numbers below one
/// half give zero.
pub open spec fn rounded(bits: u32) -> u32 {
    let negative = bits >= 0x8000_0000;
    let exp = exponent_of(bits);
    let m = significand_of(bits);
    if exp == 0xff {
        if bits % 0x80_0000 == 0 && !negative {
            u32::MAX
        } else {
            0
        }
    } else if negative || exp == 0 {
        0
    } else if exp >= 150 {
        let v: nat = m * pow2((exp - 150) as nat);
        if v > u32::MAX {
            u32::MAX
        } else {
            v as u32
        }
    } else {
        let e = (150 - exp) as nat;
        let q: nat = (m + pow2(e) / 2) / pow2(e);
        q as u32
    }
}

/// 2 to the power `k`.
fn pow2_u64(k: u32) -> (r: u64)
    requires
        k < 64,
    ensures
        r == pow2(k as nat),
{
    let mut r: u64 = 1;
    let mut i: u32 = 0;
    proof {
        lemma2_to64();
    }
    while i < k
        invariant
            i <= k < 64,
            r == pow2(i as nat),
        decreases k - i,
    {
        proof {
            lemma_pow2_unfold((i + 1) as nat);
            if i < 62 {
                lemma_pow2_strictly_increases(i as nat, 62);
            }
            lemma2_to64();
            lemma2_to64_rest();
        }
        r = r * 2;
        i = i + 1;
    }
    r
}

/// Rounds the single-precision float whose IEEE-754 bits are `bits` to the
/// nearest whole number, halves away from zero, as a `u32`: negative values
/// and NaN give zero, values past the range give `u32::MAX`.
pub fn round_rating(bits: u32) -> (r: u32)
    ensures
        r == rounded(bits),
{
    let exp = (bits / 0x80_0000) % 0x100;
    let m = (bits % 0x80_0000 + 0x80_0000) as u64;
    assert(exp == exponent_of(bits) && m == significand_of(bits));
    if exp == 0xff {
        if bits % 0x80_0000 == 0 && bits < 0x8000_0000 {
            u32::MAX
        } else {
            0
        }
    } else if bits >= 0x8000_0000 || exp == 0 {
        0
    } else if exp >= 150 {
        let k = exp - 150;
        if k >= 9 {
            proof {
                lemma2_to64();
                if k > 9 {
                    lemma_pow2_strictly_increases(9, k as nat);
                }
                lemma_mul_inequality(0x80_0000, m as int, pow2(k as nat) as int);
                lemma_mul_inequality(pow2(9) as int, pow2(k as nat) as int, 0x80_0000);
                assert(rounded(bits) == u32::MAX);
            }
            u32::MAX
        } else {
            let p = pow2_u64(k);
            proof {
                lemma2_to64();
                if k < 8 {
                    lemma_pow2_strictly_increases(k as nat, 8);
                }
                lemma_mul_inequality(m as int, 0x100_0000, p as int);
                lemma_mul_inequality(p as int, 0x100, 0x100_0000);
            }
            let v = m * p;
            assert(v == significand_of(bits) * pow2((exponent_of(bits) - 150) as nat));
            if v > 0xFFFF_FFFF {
                u32::MAX
            } else {
                v as u32
            }
        }
    } else {
        let e = 150 - exp;
        if e >= 26 {
            proof {
                lemma2_to64();
                lemma_pow2_strictly_increases(25, e as nat);
                lemma_pow2_unfold(e as nat);
                assert(m + pow2(e as nat) / 2 < pow2(e as nat));
                lemma_basic_div(m + pow2(e as nat) / 2, pow2(e as nat) as int);
                assert(rounded(bits) == 0);
            }
            0
        } else {
            let p = pow2_u64(e);
            proof {
                lemma2_to64();
                if e < 25 {
                    lemma_pow2_strictly_increases(e as nat, 25);
                }
            }
            ((m + p / 2) / p) as u32
        }
    }
}

/// The bits of the single-precision float 100.0. Bit patterns of
/// non-negative floats order as their values do, so `0 ..= HUNDRED_BITS` are
/// the floats from 0.0 to 100.0.
pub const HUNDRED_BITS: u32 = 0x42C8_0000;

/// A rating from 0.0 to 100.0 rounds to a whole number from 0 to 100.
pub proof fn rounded_percent_stays_in_range(bits: u32)
    requires
        bits <= HUNDRED_BITS,
    ensures
        rounded(bits) <= 100,
{
    let exp = exponent_of(bits);
    let m = significand_of(bits);
    assert(exp <= 133);
    if exp != 0 {
        let e = (150 - exp) as nat;
        lemma2_to64();
        let d = pow2(e);
        let x = m + d / 2;
        if exp == 133 {
            assert(bits % 0x80_0000 <= 0x48_0000);
            assert(d == 131072);
            assert(x < 101 * d);
        } else {
            lemma_pow2_strictly_increases(17, e);
            if e > 18 {
                lemma_pow2_strictly_increases(18, e);
            }
            assert(d >= 262144);
            assert(m < 64 * 262144);
            lemma_mul_inequality(262144, d as int, 64);
            assert(x < 101 * d);
        }
        assert(x / d <= 100) by (nonlinear_arith)
            requires
                x < 101 * d,
                d > 0,
        ;
    }
}

} // verus!
