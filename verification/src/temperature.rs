//! Whole degrees from a temperature that is known as a double.
//!
//! A double is a fraction of two integers. The degrees are computed from
//! that fraction in integers, so each result is the whole number nearest to
//! the exact value, and a value half-way between two whole numbers goes to
//! the one farther from zero.

use vstd::arithmetic::power2::*;
use vstd::prelude::*;

verus! {

/// Two to the power of 52: the weight of the hidden bit of a double.
pub const HIDDEN_BIT: u64 = 0x10_0000_0000_0000;

/// The 52 low bits of a double: the fraction of its significand.
pub open spec fn fraction_field(bits: u64) -> nat {
    (bits % HIDDEN_BIT) as nat
}

/// The 11 bits above the fraction: the biased exponent.
pub open spec fn exponent_field(bits: u64) -> nat {
    ((bits / HIDDEN_BIT) % 0x800) as nat
}

/// The top bit: whether the double is negative.
pub open spec fn sign_field(bits: u64) -> bool {
    bits >= 0x8000_0000_0000_0000
}

/// Whether the double is not a number.
pub open spec fn is_nan(bits: u64) -> bool {
    exponent_field(bits) == 0x7ff && fraction_field(bits) != 0
}

/// Whether the double is an infinity.
pub open spec fn is_infinite(bits: u64) -> bool {
    exponent_field(bits) == 0x7ff && fraction_field(bits) == 0
}

/// The significand of a finite double: the fraction, with the hidden bit
/// above it unless the double is subnormal.
pub open spec fn significand(bits: u64) -> nat {
    if exponent_field(bits) == 0 {
        fraction_field(bits)
    } else {
        HIDDEN_BIT as nat + fraction_field(bits)
    }
}

/// The power of two that a finite double's significand is to be multiplied
/// by.
pub open spec fn scale(bits: u64) -> int {
    if exponent_field(bits) == 0 {
        -1074
    } else {
        exponent_field(bits) - 1075
    }
}

/// A finite double is `numerator / denominator`: this is the numerator.
pub open spec fn numerator(bits: u64) -> int {
    let magnitude: int = if scale(bits) >= 0 {
        (significand(bits) * pow2(scale(bits) as nat)) as int
    } else {
        significand(bits) as int
    };
    if sign_field(bits) {
        -magnitude
    } else {
        magnitude
    }
}

/// A finite double is `numerator / denominator`: this is the denominator, a
/// power of two.
pub open spec fn denominator(bits: u64) -> int {
    if scale(bits) >= 0 {
        1
    } else {
        pow2((-scale(bits)) as nat) as int
    }
}

/// The whole number nearest to `n / d`, for a positive `d`; of two that are
/// equally near, the one farther from zero.
pub open spec fn nearest(n: int, d: int) -> int {
    if n >= 0 {
        (2 * n + d) / (2 * d)
    } else {
        -((d - 2 * n) / (2 * d))
    }
}

/// `x`, or the end of the range of `i32` that it lies beyond.
pub open spec fn saturated(x: int) -> int {
    if x > i32::MAX {
        i32::MAX as int
    } else if x < i32::MIN {
        i32::MIN as int
    } else {
        x
    }
}

/// What a double that is no finite number counts as in whole degrees: zero
/// for what is not a number, the end of the range for an infinity.
pub open spec fn unbounded(bits: u64) -> int {
    if is_nan(bits) {
        0
    } else if sign_field(bits) {
        i32::MIN as int
    } else {
        i32::MAX as int
    }
}

/// The double in whole degrees: the nearest whole number, within the range
/// of `i32`.
pub open spec fn whole_degrees(bits: u64) -> int {
    if exponent_field(bits) == 0x7ff {
        unbounded(bits)
    } else {
        saturated(nearest(numerator(bits), denominator(bits)))
    }
}

/// Degrees Fahrenheit as whole degrees Celsius: five ninths of what is
/// above 32, to the nearest whole number, within the range of `i32`.
pub open spec fn celsius_degrees(bits: u64) -> int {
    if exponent_field(bits) == 0x7ff {
        unbounded(bits)
    } else {
        saturated(
            nearest((numerator(bits) - 32 * denominator(bits)) * 5, 9 * denominator(bits)),
        )
    }
}

/// `nearest(n, d)` is within half of `n / d`, and where it is exactly half
/// away it is the farther from zero of the two whole numbers that are.
pub proof fn lemma_nearest(n: int, d: int)
    requires
        d > 0,
    ensures
        -d <= 2 * (n - nearest(n, d) * d) <= d,
        n >= 0 ==> 2 * (n - nearest(n, d) * d) < d,
        n < 0 ==> -d < 2 * (n - nearest(n, d) * d),
{
    if n >= 0 {
        let q = (2 * n + d) / (2 * d);
        vstd::arithmetic::div_mod::lemma_fundamental_div_mod(2 * n + d, 2 * d);
        vstd::arithmetic::div_mod::lemma_mod_bound(2 * n + d, 2 * d);
        assert(2 * n + d == (2 * d) * q + (2 * n + d) % (2 * d));
        assert((2 * d) * q == 2 * (q * d)) by (nonlinear_arith);
    } else {
        let q = (d - 2 * n) / (2 * d);
        vstd::arithmetic::div_mod::lemma_fundamental_div_mod(d - 2 * n, 2 * d);
        vstd::arithmetic::div_mod::lemma_mod_bound(d - 2 * n, 2 * d);
        assert(d - 2 * n == (2 * d) * q + (d - 2 * n) % (2 * d));
        assert((2 * d) * q == 2 * (q * d)) by (nonlinear_arith);
        assert((-q) * d == -(q * d)) by (nonlinear_arith);
    }
}


/// The three fields of a double.
fn fields(bits: u64) -> (parts: (u64, u64, bool))
    ensures
        parts.0 == fraction_field(bits),
        parts.0 < HIDDEN_BIT,
        parts.1 == exponent_field(bits),
        parts.1 <= 0x7ff,
        parts.2 == sign_field(bits),
{
    let fraction = bits & 0xf_ffff_ffff_ffff;
    let exponent = (bits >> 52) & 0x7ff;
    let negative = (bits >> 63) == 1;
    assert(bits & 0xf_ffff_ffff_ffff == bits % 0x10_0000_0000_0000) by (bit_vector);
    assert((bits >> 52) & 0x7ff == (bits / 0x10_0000_0000_0000) % 0x800) by (bit_vector);
    assert(((bits >> 63) == 1) == (bits >= 0x8000_0000_0000_0000)) by (bit_vector);
    (fraction, exponent, negative)
}

/// The quotient of a division is the whole number whose multiples enclose
/// the dividend.
proof fn lemma_quotient(x: int, d: int, q: int)
    requires
        d > 0,
        q * d <= x < q * d + d,
    ensures
        x / d == q,
{
    vstd::arithmetic::div_mod::lemma_fundamental_div_mod_converse(x, d, q, x - q * d);
}

/// A finite double with a biased exponent of 1075 or more is a whole number
/// of magnitude two to the 52 or more.
proof fn lemma_large(bits: u64)
    requires
        1075 <= exponent_field(bits) < 0x7ff,
    ensures
        denominator(bits) == 1,
        sign_field(bits) ==> numerator(bits) <= -(HIDDEN_BIT as int),
        !sign_field(bits) ==> numerator(bits) >= HIDDEN_BIT as int,
{
    let m = significand(bits) as int;
    let p = pow2(scale(bits) as nat) as int;
    lemma_pow2_pos(scale(bits) as nat);
    assert(m * p >= m) by (nonlinear_arith)
        requires
            m >= 0,
            p >= 1,
    ;
}

/// A finite double with a biased exponent below 1012 has a magnitude below
/// two to the minus 11: a numerator below two to the 53 over a denominator
/// of two to the 64 or more.
proof fn lemma_small(bits: u64)
    requires
        exponent_field(bits) < 1012,
    ensures
        denominator(bits) >= 0x1_0000_0000_0000_0000,
        -0x20_0000_0000_0000 < numerator(bits) < 0x20_0000_0000_0000,
{
    let k = (-scale(bits)) as nat;
    lemma2_to64();
    if k > 64 {
        lemma_pow2_strictly_increases(64, k);
    }
}

/// A finite double with a biased exponent from 1012 to 1074 has a denominator
/// from two to two to the 63.
proof fn lemma_denominator(bits: u64)
    requires
        1012 <= exponent_field(bits) < 1075,
    ensures
        denominator(bits) == pow2((1075 - exponent_field(bits)) as nat),
        2 <= denominator(bits) <= 0x8000_0000_0000_0000,
        numerator(bits) == if sign_field(bits) {
            -(HIDDEN_BIT + fraction_field(bits))
        } else {
            HIDDEN_BIT + fraction_field(bits)
        },
{
    let k = (1075 - exponent_field(bits)) as nat;
    lemma2_to64();
    lemma2_to64_rest();
    if k < 63 {
        lemma_pow2_strictly_increases(k, 63);
    }
    if k > 1 {
        lemma_pow2_strictly_increases(1, k);
    }
}

/// The whole number nearest to `n / d`, within the range of `i32`.
fn nearest_within(n: i128, d: i128) -> (degrees: i32)
    requires
        0 < d < 0x100_0000_0000_0000_0000_0000,
        -0x100_0000_0000_0000_0000_0000 < n < 0x100_0000_0000_0000_0000_0000,
    ensures
        degrees == saturated(nearest(n as int, d as int)),
{
    let quotient: i128 = if n >= 0 {
        let x: i128 = 2 * n + d;
        proof {
            vstd::arithmetic::div_mod::lemma_div_pos_is_pos(x as int, 2 * d);
            vstd::arithmetic::div_mod::lemma_div_is_ordered_by_denominator(x as int, 1, 2 * d);
            vstd::arithmetic::div_mod::lemma_div_basics(x as int);
        }
        x / (2 * d)
    } else {
        let x: i128 = d - 2 * n;
        proof {
            vstd::arithmetic::div_mod::lemma_div_pos_is_pos(x as int, 2 * d);
            vstd::arithmetic::div_mod::lemma_div_is_ordered_by_denominator(x as int, 1, 2 * d);
            vstd::arithmetic::div_mod::lemma_div_basics(x as int);
        }
        -(x / (2 * d))
    };
    if quotient > 0x7fff_ffff {
        i32::MAX
    } else if quotient < -0x8000_0000 {
        i32::MIN
    } else {
        quotient as i32
    }
}

/// A temperature in whole degrees: the whole number nearest to the double
/// with the bit pattern `bits`.
pub fn rounded(bits: u64) -> (degrees: i32)
    ensures
        degrees == whole_degrees(bits),
{
    let (fraction, exponent, negative) = fields(bits);
    if exponent == 0x7ff {
        if fraction != 0 {
            0
        } else if negative {
            i32::MIN
        } else {
            i32::MAX
        }
    } else if exponent >= 1075 {
        proof {
            lemma_large(bits);
        }
        if negative {
            i32::MIN
        } else {
            i32::MAX
        }
    } else if exponent < 1012 {
        proof {
            lemma_small(bits);
            let n = numerator(bits);
            let d = denominator(bits);
            if n >= 0 {
                lemma_quotient(2 * n + d, 2 * d, 0);
            } else {
                lemma_quotient(d - 2 * n, 2 * d, 0);
            }
        }
        0
    } else {
        let shift: u64 = 1075 - exponent;
        let d: u64 = 1u64 << shift;
        proof {
            lemma_denominator(bits);
            vstd::bits::lemma_u64_shl_is_mul(1, shift);
        }
        let m: i128 = (HIDDEN_BIT + fraction) as i128;
        let n: i128 = if negative {
            -m
        } else {
            m
        };
        nearest_within(n, d as i128)
    }
}

/// A temperature in degrees Fahrenheit, given as the bit pattern of a
/// double, in whole degrees Celsius.
pub fn celsius(bits: u64) -> (degrees: i32)
    ensures
        degrees == celsius_degrees(bits),
{
    let (fraction, exponent, negative) = fields(bits);
    if exponent == 0x7ff {
        if fraction != 0 {
            0
        } else if negative {
            i32::MIN
        } else {
            i32::MAX
        }
    } else if exponent >= 1075 {
        proof {
            lemma_large(bits);
        }
        if negative {
            i32::MIN
        } else {
            i32::MAX
        }
    } else if exponent < 1012 {
        proof {
            lemma_small(bits);
            let n = (numerator(bits) - 32 * denominator(bits)) * 5;
            let d = 9 * denominator(bits);
            lemma_quotient(d - 2 * n, 2 * d, 18);
        }
        -18
    } else {
        let shift: u64 = 1075 - exponent;
        let d: u64 = 1u64 << shift;
        proof {
            lemma_denominator(bits);
            vstd::bits::lemma_u64_shl_is_mul(1, shift);
        }
        let m: i128 = (HIDDEN_BIT + fraction) as i128;
        let n: i128 = if negative {
            -m
        } else {
            m
        };
        nearest_within((n - 32 * (d as i128)) * 5, 9 * (d as i128))
    }
}

} // verus!
