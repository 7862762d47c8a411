//! IEEE-754 binary64 values held as their bit pattern, and the integer that
//! `floor` followed by a saturating conversion to `i64` gives for them.
use vstd::arithmetic::div_mod::{
    lemma_basic_div, lemma_fundamental_div_mod, lemma_fundamental_div_mod_converse,
};
use vstd::arithmetic::power2::{
    lemma2_to64, lemma2_to64_rest, lemma_pow2_pos, lemma_pow2_strictly_increases, lemma_pow2_unfold, pow2,
};
use vstd::prelude::*;

verus! {

/// 2^52: one unit of the exponent field, and the implicit leading bit of a
/// normal significand.
pub const FRACTION_UNIT: u64 = 0x10_0000_0000_0000;

/// 2^63: the sign bit.
pub const SIGN_BIT: u64 = 0x8000_0000_0000_0000;

/// The all-ones exponent field of infinities and NaNs.
pub const EXPONENT_ALL_ONES: u64 = 0x7ff;

/// The exponent bias plus the width of the fraction field.
pub const EXPONENT_OFFSET: u64 = 1075;

pub open spec fn is_negative(bits: u64) -> bool {
    bits >= SIGN_BIT
}

pub open spec fn exponent_field(bits: u64) -> int {
    (bits as int / FRACTION_UNIT as int) % 0x800
}

pub open spec fn fraction_field(bits: u64) -> int {
    bits as int % FRACTION_UNIT as int
}

pub open spec fn is_nan(bits: u64) -> bool {
    exponent_field(bits) == EXPONENT_ALL_ONES && fraction_field(bits) != 0
}

pub open spec fn is_infinite(bits: u64) -> bool {
    exponent_field(bits) == EXPONENT_ALL_ONES && fraction_field(bits) == 0
}

pub open spec fn is_finite(bits: u64) -> bool {
    exponent_field(bits) != EXPONENT_ALL_ONES
}

/// The magnitude of a finite double is `significand(bits) * 2^scale(bits)`.
pub open spec fn significand(bits: u64) -> int {
    if exponent_field(bits) == 0 {
        fraction_field(bits)
    } else {
        fraction_field(bits) + FRACTION_UNIT
    }
}

pub open spec fn scale(bits: u64) -> int {
    if exponent_field(bits) == 0 {
        1 - EXPONENT_OFFSET
    } else {
        exponent_field(bits) - EXPONENT_OFFSET
    }
}

pub open spec fn signed_significand(bits: u64) -> int {
    if is_negative(bits) {
        -significand(bits)
    } else {
        significand(bits)
    }
}

/// The greatest integer not above the finite double with this bit pattern.
/// (`/` on `int` rounds toward negative infinity for a positive divisor.)
pub open spec fn floor_of_finite(bits: u64) -> int {
    let m = signed_significand(bits);
    if scale(bits) >= 0 {
        m * pow2(scale(bits) as nat)
    } else {
        m / (pow2((-scale(bits)) as nat) as int)
    }
}

pub open spec fn saturate_i64(x: int) -> i64 {
    if x < i64::MIN {
        i64::MIN
    } else if x > i64::MAX {
        i64::MAX
    } else {
        x as i64
    }
}

/// `floor(f) as i64` in Rust's semantics: out-of-range values saturate,
/// infinities go to the nearest bound and NaN becomes zero.
pub open spec fn floor_i64(bits: u64) -> i64 {
    if is_nan(bits) {
        0
    } else if is_infinite(bits) {
        if is_negative(bits) {
            i64::MIN
        } else {
            i64::MAX
        }
    } else {
        saturate_i64(floor_of_finite(bits))
    }
}

/// `2^k`, for `k < 64`.
fn power_of_two(k: u64) -> (r: u64)
    requires
        k < 64,
    ensures
        r as int == pow2(k as nat),
{
    let mut p: u64 = 1;
    let mut i: u64 = 0;
    proof {
        lemma2_to64();
    }
    while i < k
        invariant
            i <= k < 64,
            p as int == pow2(i as nat),
        decreases k - i,
    {
        proof {
            lemma_pow2_unfold((i + 1) as nat);
            lemma_pow2_strictly_increases((i + 1) as nat, 64);
            lemma2_to64();
        }
        p = p * 2;
        i = i + 1;
    }
    p
}

/// Floors `-m / d` for a positive `d`, from the quotient and remainder of `m / d`.
proof fn lemma_floor_of_negated(m: int, d: int)
    requires
        m >= 0,
        d > 0,
    ensures
        (-m) / d == -(m / d) - (if m % d != 0 { 1int } else { 0int }),
{
    let q = m / d;
    let r = m % d;
    lemma_fundamental_div_mod(m, d);
    if r != 0 {
        assert(-m == (-q - 1) * d + (d - r)) by (nonlinear_arith)
            requires
                m == d * q + r,
        ;
        lemma_fundamental_div_mod_converse(-m, d, -q - 1, d - r);
    } else {
        assert(-m == (-q) * d + 0) by (nonlinear_arith)
            requires
                m == d * q + r,
                r == 0,
        ;
        lemma_fundamental_div_mod_converse(-m, d, -q, 0);
    }
}

/// Where the scale is negative, the finite double is
/// `signed_significand(bits) / d` with `d = 2^-scale(bits)`, and
/// `floor_of_finite` is the greatest integer `x` with `x * d` not above the
/// signed significand.
pub proof fn lemma_floor_of_finite_is_floor(bits: u64)
    requires
        is_finite(bits),
        scale(bits) < 0,
    ensures
        floor_of_finite(bits) * pow2((-scale(bits)) as nat) <= signed_significand(bits),
        signed_significand(bits) < (floor_of_finite(bits) + 1) * pow2((-scale(bits)) as nat),
{
    let d = pow2((-scale(bits)) as nat) as int;
    let m = signed_significand(bits);
    lemma_pow2_pos((-scale(bits)) as nat);
    lemma_fundamental_div_mod(m, d);
    assert((m / d + 1) * d == (m / d) * d + d) by (nonlinear_arith);
    assert((m / d) * d == d * (m / d)) by (nonlinear_arith);
}

/// The value of `f.floor() as i64` for the double `f` with bit pattern `bits`.
pub fn floor_to_i64(bits: u64) -> (r: i64)
    ensures
        r == floor_i64(bits),
{
    let negative = bits >= SIGN_BIT;
    let exponent = (bits / FRACTION_UNIT) % 0x800;
    let fraction = bits % FRACTION_UNIT;
    if exponent == EXPONENT_ALL_ONES {
        if fraction != 0 {
            return 0;
        }
        return if negative {
            i64::MIN
        } else {
            i64::MAX
        };
    }
    let m: u64 = if exponent == 0 {
        fraction
    } else {
        fraction + FRACTION_UNIT
    };
    assert(m as int == significand(bits));
    assert(m < 2 * FRACTION_UNIT);
    proof {
        lemma2_to64();
    }
    if exponent >= EXPONENT_OFFSET {
        let k = exponent - EXPONENT_OFFSET;
        assert(k as int == scale(bits));
        if k >= 11 {
            proof {
                if k > 11 {
                    lemma_pow2_strictly_increases(11, k as nat);
                }
                assert(m as int * pow2(k as nat) >= FRACTION_UNIT as int * pow2(11))
                    by (nonlinear_arith)
                    requires
                        m >= FRACTION_UNIT,
                        pow2(k as nat) >= pow2(11),
                ;
                assert(-(m as int) * pow2(k as nat) == -(m as int * pow2(k as nat)))
                    by (nonlinear_arith);
            }
            return if negative {
                i64::MIN
            } else {
                i64::MAX
            };
        }
        let p = power_of_two(k);
        proof {
            if k < 10 {
                lemma_pow2_strictly_increases(k as nat, 10);
            }
            assert(m as int * p as int <= (2 * FRACTION_UNIT - 1) as int * pow2(10))
                by (nonlinear_arith)
                requires
                    m < 2 * FRACTION_UNIT,
                    p as int <= pow2(10),
            ;
        }
        let magnitude = (m * p) as i64;
        assert(-(m as int) * p as int == -(m as int * p as int)) by (nonlinear_arith);
        if negative {
            -magnitude
        } else {
            magnitude
        }
    } else {
        let k: u64 = if exponent == 0 {
            EXPONENT_OFFSET - 1
        } else {
            EXPONENT_OFFSET - exponent
        };
        assert(-(k as int) == scale(bits));
        proof {
            lemma_pow2_pos(k as nat);
            lemma_floor_of_negated(m as int, pow2(k as nat) as int);
        }
        if k >= 64 {
            proof {
                lemma2_to64_rest();
                lemma_pow2_strictly_increases(53, k as nat);
                lemma_basic_div(m as int, pow2(k as nat) as int);
                vstd::arithmetic::div_mod::lemma_small_mod(m as nat, pow2(k as nat));
            }
            if negative && m != 0 {
                -1
            } else {
                0
            }
        } else {
            let p = power_of_two(k);
            let q = m / p;
            let rest = m % p;
            if negative {
                if rest != 0 {
                    -(q as i64) - 1
                } else {
                    -(q as i64)
                }
            } else {
                q as i64
            }
        }
    }
}

} // verus!
