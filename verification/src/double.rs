//! Double-precision numbers as their IEEE-754 bit patterns.
//!
//! Sizes, scale factors and damage rectangles reach this library as 64-bit
//! patterns: one sign bit, eleven exponent bits, fifty-two fraction bits.
//! The functions here answer, in integer arithmetic, the questions that the
//! size and present rules ask of such a number: is it finite, is it whole,
//! and which integer does it round to.

use vstd::prelude::*;
use vstd::arithmetic::power2::{
    lemma2_to64, lemma2_to64_rest, lemma_pow2_strictly_increases, lemma_pow2_unfold, pow2,
};

verus! {

/// `2^52`: the weight of the hidden bit of a normal number.
pub const HIDDEN_BIT: u64 = 0x10_0000_0000_0000;

/// `2^63`: the sign bit.
pub const SIGN_BIT: u64 = 0x8000_0000_0000_0000;

/// The sign bit is set. This holds of `-0.0` and of negative NaNs too.
pub open spec fn is_negative(bits: u64) -> bool {
    bits >= SIGN_BIT
}

/// The eleven exponent bits.
pub open spec fn exponent_field(bits: u64) -> nat {
    ((bits / HIDDEN_BIT) % 2048) as nat
}

/// The fifty-two fraction bits.
pub open spec fn fraction_field(bits: u64) -> nat {
    (bits % HIDDEN_BIT) as nat
}

/// Neither an infinity nor a NaN.
pub open spec fn is_finite(bits: u64) -> bool {
    exponent_field(bits) != 2047
}

/// The integer `m` in the magnitude `m * 2^e` of a finite number.
pub open spec fn significand(bits: u64) -> nat {
    if exponent_field(bits) == 0 {
        fraction_field(bits)
    } else {
        fraction_field(bits) + HIDDEN_BIT as nat
    }
}

/// The exponent `e` in the magnitude `m * 2^e` of a finite number.
pub open spec fn scale(bits: u64) -> int {
    if exponent_field(bits) == 0 {
        -1074
    } else {
        exponent_field(bits) - 1075
    }
}

/// The magnitude of a finite number, rounded toward zero.
pub open spec fn whole_part(bits: u64) -> nat {
    if scale(bits) >= 0 {
        significand(bits) * pow2(scale(bits) as nat)
    } else {
        significand(bits) / pow2((-scale(bits)) as nat)
    }
}

/// The magnitude of a finite number is not a whole number.
pub open spec fn has_fraction(bits: u64) -> bool {
    scale(bits) < 0 && significand(bits) % pow2((-scale(bits)) as nat) != 0
}

/// The number is finite and whole.
pub open spec fn is_whole(bits: u64) -> bool {
    is_finite(bits) && !has_fraction(bits)
}

/// The least whole number not below the value, where the value is finite
/// and that number is not negative. Any value above `-1` and at most `0`
/// has ceiling zero.
pub open spec fn ceiling(bits: u64) -> Option<nat> {
    if !is_finite(bits) {
        None
    } else if !is_negative(bits) {
        Some(
            if has_fraction(bits) {
                whole_part(bits) + 1
            } else {
                whole_part(bits)
            },
        )
    } else if whole_part(bits) == 0 {
        Some(0)
    } else {
        None
    }
}

/// The greatest whole number not above the value, where the value is finite
/// and that number is not negative.
pub open spec fn floor(bits: u64) -> Option<nat> {
    if !is_finite(bits) {
        None
    } else if !is_negative(bits) {
        Some(whole_part(bits))
    } else if whole_part(bits) == 0 && !has_fraction(bits) {
        Some(0)
    } else {
        None
    }
}

/// The part of the magnitude behind the point is a half or more.
pub open spec fn rounds_up(bits: u64) -> bool {
    scale(bits) < 0 && 2 * (significand(bits) % pow2((-scale(bits)) as nat)) >= pow2(
        (-scale(bits)) as nat,
    )
}

/// A whole value as a signed 32-bit integer, held to that type's range.
pub open spec fn whole_i32(bits: u64) -> int
    recommends
        is_whole(bits),
{
    if is_negative(bits) {
        if whole_part(bits) >= 0x8000_0000 {
            i32::MIN as int
        } else {
            -(whole_part(bits) as int)
        }
    } else {
        if whole_part(bits) > i32::MAX {
            i32::MAX as int
        } else {
            whole_part(bits) as int
        }
    }
}

/// What a finite number holds, as far as 64-bit integers can say.
#[derive(Clone, Copy, Debug, PartialEq, Eq, Structural)]
pub struct Parts {
    /// The sign bit.
    pub negative: bool,
    /// The magnitude rounded toward zero; `None` where it is `2^64` or more.
    pub whole: Option<u64>,
    /// The magnitude is not a whole number.
    pub fractional: bool,
    /// The part of the magnitude behind the point is a half or more.
    pub half_or_more: bool,
}

/// `2^k` as a machine integer.
fn power_of_two(k: u32) -> (r: u64)
    requires
        k <= 62,
    ensures
        r == pow2(k as nat),
        r >= 1,
{
    let mut r: u64 = 1;
    let mut i: u32 = 0;
    proof {
        lemma2_to64();
    }
    while i < k
        invariant
            i <= k <= 62,
            r == pow2(i as nat),
            r >= 1,
        decreases k - i,
    {
        proof {
            lemma_pow2_unfold((i + 1) as nat);
            lemma_pow2_strictly_increases((i + 1) as nat, 63);
            lemma2_to64_rest();
        }
        r = r * 2;
        i += 1;
    }
    r
}

/// Takes a bit pattern apart. Gives `None` for an infinity or a NaN.
pub fn parts(bits: u64) -> (r: Option<Parts>)
    ensures
        r.is_some() == is_finite(bits),
        r matches Some(p) ==> {
            &&& p.negative == is_negative(bits)
            &&& p.fractional == has_fraction(bits)
            &&& p.half_or_more == rounds_up(bits)
            &&& whole_part(bits) <= u64::MAX ==> p.whole == Some(whole_part(bits) as u64)
            &&& whole_part(bits) > u64::MAX ==> p.whole.is_none()
            &&& p.fractional || p.half_or_more ==> whole_part(bits) < u64::MAX
        },
{
    let negative = bits >= SIGN_BIT;
    let field: u64 = (bits / HIDDEN_BIT) % 2048;
    let fraction: u64 = bits % HIDDEN_BIT;
    proof {
        lemma2_to64();
        lemma2_to64_rest();
    }
    if field == 2047 {
        None
    } else if field == 0 {
        proof {
            lemma_pow2_strictly_increases(53, 1074);
            lemma_small(fraction as nat, pow2(1074));
        }
        Some(Parts { negative, whole: Some(0), fractional: fraction != 0, half_or_more: false })
    } else if field < 1022 {
        let ghost m = significand(bits);
        proof {
            if field < 1021 {
                lemma_pow2_strictly_increases(54, (1075 - field) as nat);
            }
            lemma_small(m, pow2((1075 - field) as nat));
        }
        Some(Parts { negative, whole: Some(0), fractional: true, half_or_more: false })
    } else if field < 1075 {
        let m: u64 = fraction + HIDDEN_BIT;
        let shift: u32 = (1075 - field) as u32;
        let unit = power_of_two(shift);
        let behind = m % unit;
        proof {
            lemma_pow2_strictly_increases(shift as nat, 54);
        }
        Some(
            Parts {
                negative,
                whole: Some(m / unit),
                fractional: behind != 0,
                half_or_more: behind >= unit - behind,
            },
        )
    } else if field < 1087 {
        let m: u64 = fraction + HIDDEN_BIT;
        let shift: u32 = (field - 1075) as u32;
        let unit = power_of_two(shift);
        proof {
            if shift < 11 {
                lemma_pow2_strictly_increases(shift as nat, 11);
            }
            lemma_product_bound(m as nat, unit as nat, 0x20_0000_0000_0000, 2048);
        }
        Some(Parts { negative, whole: Some(m * unit), fractional: false, half_or_more: false })
    } else {
        proof {
            let m = significand(bits);
            let e = (field - 1075) as nat;
            if e > 12 {
                lemma_pow2_strictly_increases(12, e);
            }
            lemma_product_floor(m, pow2(e), HIDDEN_BIT as nat, 4096);
        }
        Some(Parts { negative, whole: None, fractional: false, half_or_more: false })
    }
}

/// A number below half the unit has no whole units in it.
proof fn lemma_small(m: nat, unit: nat)
    requires
        2 * m < unit,
    ensures
        m / unit == 0,
        m % unit == m,
{
    vstd::arithmetic::div_mod::lemma_small_mod(m, unit);
    vstd::arithmetic::div_mod::lemma_basic_div(m as int, unit as int);
}

/// A product of factors below their limits is below the limits' product.
proof fn lemma_product_bound(a: nat, b: nat, a_limit: nat, b_limit: nat)
    requires
        a < a_limit,
        0 < b <= b_limit,
    ensures
        a * b < a_limit * b_limit,
{
    assert(a * b < a_limit * b_limit) by (nonlinear_arith)
        requires
            a < a_limit,
            0 < b <= b_limit,
    ;
}

/// A product of factors above their floors is above the floors' product.
proof fn lemma_product_floor(a: nat, b: nat, a_floor: nat, b_floor: nat)
    requires
        a >= a_floor,
        b >= b_floor,
    ensures
        a * b >= a_floor * b_floor,
{
    assert(a * b >= a_floor * b_floor) by (nonlinear_arith)
        requires
            a >= a_floor,
            b >= b_floor,
    ;
}

/// The ceiling of the value, where it is finite, not negative and at most
/// `limit`.
pub fn ceiling_within(bits: u64, limit: u64) -> (r: Option<u64>)
    ensures
        match ceiling(bits) {
            Some(c) => if c <= limit {
                r == Some(c as u64)
            } else {
                r.is_none()
            },
            None => r.is_none(),
        },
{
    match parts(bits) {
        None => None,
        Some(p) => match p.whole {
            None => None,
            Some(whole) => {
                let rounded: u64 = if p.negative {
                    if whole != 0 {
                        return None;
                    }
                    0
                } else if p.fractional {
                    whole + 1
                } else {
                    whole
                };
                if rounded <= limit {
                    Some(rounded)
                } else {
                    None
                }
            },
        },
    }
}

/// The floor of the value, where it is finite, not negative and at most
/// `limit`.
pub fn floor_within(bits: u64, limit: u64) -> (r: Option<u64>)
    ensures
        match floor(bits) {
            Some(f) => if f <= limit {
                r == Some(f as u64)
            } else {
                r.is_none()
            },
            None => r.is_none(),
        },
{
    match parts(bits) {
        None => None,
        Some(p) => match p.whole {
            None => None,
            Some(whole) => {
                if p.negative && (whole != 0 || p.fractional) {
                    None
                } else if whole <= limit {
                    Some(whole)
                } else {
                    None
                }
            },
        },
    }
}

/// The value rounded to the nearest whole number, halves away from zero,
/// held to the range of an unsigned 32-bit integer; zero for a NaN.
pub fn nearest_u32(bits: u64) -> (r: u32)
    ensures
        r as nat == nearest_u32_spec(bits),
{
    match parts(bits) {
        None => if bits >= SIGN_BIT || bits % HIDDEN_BIT != 0 {
            0
        } else {
            u32::MAX
        },
        Some(p) => if p.negative {
            0
        } else {
            match p.whole {
                None => u32::MAX,
                Some(whole) => {
                    let rounded: u64 = if p.half_or_more {
                        whole + 1
                    } else {
                        whole
                    };
                    if rounded > 0xffff_ffff {
                        u32::MAX
                    } else {
                        rounded as u32
                    }
                },
            }
        },
    }
}

/// What `nearest_u32` computes: zero for a NaN and for anything negative,
/// the largest value for anything too large.
pub open spec fn nearest_u32_spec(bits: u64) -> nat {
    if !is_finite(bits) {
        if is_negative(bits) || fraction_field(bits) != 0 {
            0
        } else {
            u32::MAX as nat
        }
    } else if is_negative(bits) {
        0
    } else {
        let rounded = if rounds_up(bits) {
            whole_part(bits) + 1
        } else {
            whole_part(bits)
        };
        if rounded > u32::MAX {
            u32::MAX as nat
        } else {
            rounded
        }
    }
}

/// A whole value as a signed 32-bit integer, held to that type's range.
/// Gives `None` for an infinity, a NaN or a value with a fraction.
pub fn whole_as_i32(bits: u64) -> (r: Option<i32>)
    ensures
        r.is_some() == is_whole(bits),
        r matches Some(v) ==> v == whole_i32(bits),
{
    match parts(bits) {
        None => None,
        Some(p) => if p.fractional {
            None
        } else {
            match p.whole {
                None => if p.negative {
                    Some(i32::MIN)
                } else {
                    Some(i32::MAX)
                },
                Some(whole) => if p.negative {
                    if whole >= 0x8000_0000 {
                        Some(i32::MIN)
                    } else {
                        Some(-(whole as i32))
                    }
                } else {
                    if whole > 0x7fff_ffff {
                        Some(i32::MAX)
                    } else {
                        Some(whole as i32)
                    }
                },
            }
        },
    }
}

/// The sign bit is set.
pub fn sign_bit(bits: u64) -> (r: bool)
    ensures
        r == is_negative(bits),
{
    bits >= SIGN_BIT
}

} // verus!
