//! Magnitude tests on IEEE-754 binary64 values held as their bit patterns.
//!
//! A number travels through the library as the 64 bits of its binary64
//! encoding, so every decision on it is integer arithmetic that Verus checks.

use vstd::arithmetic::power2::{lemma2_to64, lemma2_to64_rest, lemma_pow2_adds, lemma_pow2_pos, pow2};
use vstd::prelude::*;

verus! {

/// Two to the fifty-second: one unit past the largest fraction field.
pub const FRACTION_SPAN: u64 = 0x10_0000_0000_0000;

/// The largest magnitude that a request may carry.
pub const MAGNITUDE_LIMIT: u64 = 1_000_000;

/// Biased exponent of 1,000,000.0.
const LIMIT_EXPONENT: u64 = 1042;

/// Fraction field of 1,000,000.0.
const LIMIT_FRACTION: u64 = 0xE_8480_0000_0000;

/// The biased exponent field (bits 52 to 62).
pub open spec fn exponent_field(bits: u64) -> int {
    (bits as int / FRACTION_SPAN as int) % 2048
}

/// The fraction field (bits 0 to 51).
pub open spec fn fraction_field(bits: u64) -> int {
    bits as int % FRACTION_SPAN as int
}

pub open spec fn is_nan(bits: u64) -> bool {
    exponent_field(bits) == 2047 && fraction_field(bits) != 0
}

pub open spec fn is_infinite(bits: u64) -> bool {
    exponent_field(bits) == 2047 && fraction_field(bits) == 0
}

/// The integer significand of a finite value: subnormals lack the hidden bit.
pub open spec fn significand(bits: u64) -> int {
    if exponent_field(bits) == 0 {
        fraction_field(bits)
    } else {
        FRACTION_SPAN as int + fraction_field(bits)
    }
}

/// The power of two that scales the significand of a finite value.
pub open spec fn scale(bits: u64) -> int {
    if exponent_field(bits) == 0 {
        -1074
    } else {
        exponent_field(bits) - 1075
    }
}

/// For a finite value, `|x| > bound`, compared exactly as
/// `significand * 2^scale > bound` with both sides scaled to integers.
pub open spec fn finite_magnitude_exceeds(bits: u64, bound: int) -> bool {
    if scale(bits) >= 0 {
        significand(bits) * pow2(scale(bits) as nat) > bound
    } else {
        significand(bits) > bound * pow2((-scale(bits)) as nat)
    }
}

/// `|x| > 1,000,000` as binary64 comparison decides it: infinities exceed
/// every bound, and a NaN compares false.
pub open spec fn exceeds_magnitude_limit(bits: u64) -> bool {
    !is_nan(bits) && (is_infinite(bits) || finite_magnitude_exceeds(bits, MAGNITUDE_LIMIT as int))
}

proof fn lemma_pow2_monotone(a: nat, b: nat)
    requires
        a <= b,
    ensures
        pow2(a) <= pow2(b),
{
    lemma_pow2_adds(a, (b - a) as nat);
    lemma_pow2_pos((b - a) as nat);
    lemma_pow2_pos(a);
    assert(pow2(a) * pow2((b - a) as nat) >= pow2(a) * 1) by (nonlinear_arith)
        requires
            pow2((b - a) as nat) >= 1,
            pow2(a) > 0,
    ;
}

/// Whether the binary64 value with these bits has an absolute value above
/// [`MAGNITUDE_LIMIT`].
pub fn exceeds_limit(bits: u64) -> (r: bool)
    ensures
        r == exceeds_magnitude_limit(bits),
{
    let exponent: u64 = (bits / FRACTION_SPAN) % 2048;
    let fraction: u64 = bits % FRACTION_SPAN;
    proof {
        lemma2_to64();
        lemma2_to64_rest();
        let e = exponent_field(bits);
        let s = scale(bits);
        let m = significand(bits);
        if e < 2047 && e > LIMIT_EXPONENT {
            assert(m >= pow2(52));
            if s >= 0 {
                lemma_pow2_pos(s as nat);
                assert(m * pow2(s as nat) >= m) by (nonlinear_arith)
                    requires
                        pow2(s as nat) >= 1,
                        m >= 0,
                ;
            } else {
                lemma_pow2_monotone((-s) as nat, 32);
                assert(MAGNITUDE_LIMIT * pow2((-s) as nat) <= MAGNITUDE_LIMIT * pow2(32))
                    by (nonlinear_arith)
                    requires
                        pow2((-s) as nat) <= pow2(32),
                ;
            }
            assert(finite_magnitude_exceeds(bits, MAGNITUDE_LIMIT as int));
        } else if e < LIMIT_EXPONENT {
            assert(m < pow2(53));
            lemma_pow2_monotone(34, (-s) as nat);
            assert(MAGNITUDE_LIMIT * pow2((-s) as nat) >= MAGNITUDE_LIMIT * pow2(34))
                by (nonlinear_arith)
                requires
                    pow2((-s) as nat) >= pow2(34),
            ;
            assert(!finite_magnitude_exceeds(bits, MAGNITUDE_LIMIT as int));
        } else if e == LIMIT_EXPONENT {
            assert(s == -33);
            assert(finite_magnitude_exceeds(bits, MAGNITUDE_LIMIT as int) == (fraction
                > LIMIT_FRACTION));
        }
    }
    if exponent == 2047 {
        fraction == 0
    } else if exponent > LIMIT_EXPONENT {
        true
    } else if exponent < LIMIT_EXPONENT {
        false
    } else {
        fraction > LIMIT_FRACTION
    }
}

} // verus!
