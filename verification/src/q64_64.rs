//! The Q64.64 fixed-point scalar.
//!
//! A `Q64_64` stores a non-negative number with 64 integer bits and 64
//! fractional bits as a raw `u128` magnitude; the value represented is the
//! magnitude divided by two to the 64th.  Multiplication, division and
//! square roots widen to 256 bits internally so that no precision is lost
//! before the result is truncated back to 128 bits.  The view of a value is
//! its raw magnitude as an integer, so every contract below is exact integer
//! arithmetic on magnitudes.

use vstd::prelude::*;

verus! {

use crate::u256::{
    U256,
    mul_u128,
    div_rem_u256,
    shl_64,
    sqrt_u256,
    sqrt_floor,
    is_sqrt_floor,
    lemma_sqrt_floor_unique,
    q128_128_round_spec,
    q128_128_round_to_u64_spec,
    pow2_64,
    pow2_128,
    BASE64,
    FRAC_TOP8,
};
use vstd::arithmetic::div_mod::{
    lemma_fundamental_div_mod,
    lemma_fundamental_div_mod_converse,
    lemma_div_by_multiple,
    lemma_div_is_ordered,
};
use crate::u256::lemma_sqrt_floor;

/// A non-negative fixed-point number with 64 integer and 64 fractional bits.
#[derive(Clone, Copy, Debug, PartialEq, Default)]
pub struct Q64_64 {
    value: u128,
}

impl View for Q64_64 {
    type V = int;

    closed spec fn view(&self) -> int {
        self.value as int
    }
}

impl Q64_64 {
    /// A value's magnitude is a 128-bit unsigned integer.
    pub proof fn lemma_bounds(&self)
        ensures
            0 <= self@ < pow2_128(),
    {
    }

    /// Wraps a raw magnitude.
    pub fn new(value: u128) -> (r: Q64_64)
        ensures
            r@ == value,
    {
        Q64_64 { value }
    }

    /// The number one, whose magnitude is two to the 64th.
    pub fn one() -> (r: Q64_64)
        ensures
            r@ == pow2_64(),
    {
        Q64_64 { value: BASE64 }
    }

    /// The largest representable value.
    pub fn max_value() -> (r: Q64_64)
        ensures
            r@ == pow2_128() - 1,
    {
        Q64_64 { value: u128::MAX }
    }

    /// The fixed-point image of an integer, keeping its low 64 bits.
    pub fn from_u128(value: u128) -> (r: Q64_64)
        ensures
            r@ == ((value as int) % pow2_64()) * pow2_64(),
    {
        Q64_64 { value: (value % BASE64) * BASE64 }
    }

    /// The fixed-point image of a 64-bit integer, exactly.
    pub fn from_u64(value: u64) -> (r: Q64_64)
        ensures
            r@ == value * pow2_64(),
    {
        Q64_64 { value: (value as u128) * BASE64 }
    }

    /// Assembles a value from its integer and fractional bit halves.
    pub fn from_bits(high_bits: u64, low_bits: u64) -> (r: Q64_64)
        ensures
            r@ == high_bits * pow2_64() + low_bits,
    {
        Q64_64 { value: (high_bits as u128) * BASE64 + (low_bits as u128) }
    }

    /// The integer part, rounding the fraction down.
    pub fn to_u64(&self) -> (r: u64)
        ensures
            r == self@ / pow2_64(),
    {
        (self.value / BASE64) as u64
    }

    /// The integer and fractional bit halves.
    pub fn split(&self) -> (r: (u64, u64))
        ensures
            r.0 == self@ / pow2_64(),
            r.1 == self@ % pow2_64(),
    {
        (self.get_integer_bits(), self.get_fractional_bits())
    }

    /// The raw magnitude.
    pub fn raw_value(&self) -> (r: u128)
        ensures
            r == self@,
    {
        self.value
    }

    /// Overwrites the raw magnitude.
    pub fn set_raw_value(&mut self, value: u128)
        ensures
            final(self)@ == value,
    {
        self.value = value;
    }

    /// The 64 integer bits.
    pub fn get_integer_bits(&self) -> (r: u64)
        ensures
            r == self@ / pow2_64(),
    {
        (self.value / BASE64) as u64
    }

    /// The 64 fractional bits.
    pub fn get_fractional_bits(&self) -> (r: u64)
        ensures
            r == self@ % pow2_64(),
    {
        (self.value % BASE64) as u64
    }

    /// Whether the value is zero.
    pub fn is_zero(&self) -> (r: bool)
        ensures
            r == (self@ == 0),
    {
        self.value == 0
    }

    /// Whether the value is one.
    pub fn is_one(&self) -> (r: bool)
        ensures
            r == (self@ == pow2_64()),
    {
        self.value == BASE64
    }

    /// The absolute difference of two values.
    pub fn abs_diff(&self, other: Q64_64) -> (r: Q64_64)
        ensures
            self@ >= other@ ==> r@ == self@ - other@,
            self@ < other@ ==> r@ == other@ - self@,
    {
        if self.value >= other.value {
            Q64_64 { value: self.value - other.value }
        } else {
            Q64_64 { value: other.value - self.value }
        }
    }

    /// Whether this value is at most the other.
    pub fn le(&self, other: &Q64_64) -> (r: bool)
        ensures
            r == (self@ <= other@),
    {
        self.value <= other.value
    }

    /// The sum, or `None` where it does not fit.
    pub fn checked_add(&self, rhs: Q64_64) -> (r: Option<Q64_64>)
        ensures
            self@ + rhs@ < pow2_128() ==> (r matches Some(s) && s@ == self@ + rhs@),
            self@ + rhs@ >= pow2_128() ==> r is None,
    {
        let limit: u128 = u128::MAX;
        if self.value <= limit - rhs.value {
            Some(Q64_64 { value: self.value + rhs.value })
        } else {
            None
        }
    }

    /// The difference, or `None` where it would be negative.
    pub fn checked_sub(&self, rhs: Q64_64) -> (r: Option<Q64_64>)
        ensures
            self@ >= rhs@ ==> (r matches Some(s) && s@ == self@ - rhs@),
            self@ < rhs@ ==> r is None,
    {
        if self.value >= rhs.value {
            Some(Q64_64 { value: self.value - rhs.value })
        } else {
            None
        }
    }

    /// The fixed-point product, rounded down, or `None` where it does not
    /// fit: the raw result is the product of the magnitudes divided by two
    /// to the 64th.
    pub fn checked_mul(&self, rhs: Q64_64) -> (r: Option<Q64_64>)
        ensures
            (self@ * rhs@) / pow2_64() < pow2_128() ==> (r matches Some(p) && p@ == (self@
                * rhs@) / pow2_64()),
            (self@ * rhs@) / pow2_64() >= pow2_128() ==> r is None,
    {
        let p: U256 = mul_u128(self.value, rhs.value);
        proof {
            lemma_fundamental_div_mod(p.lo as int, pow2_64());
            lemma_fundamental_div_mod_converse(
                self@ * rhs@,
                pow2_64(),
                p.hi * pow2_64() + p.lo as int / pow2_64(),
                p.lo as int % pow2_64(),
            );
        }
        if p.hi < BASE64 {
            Some(Q64_64 { value: p.hi * BASE64 + p.lo / BASE64 })
        } else {
            None
        }
    }

    /// The fixed-point quotient, rounded down: the raw result is the
    /// dividend's magnitude scaled up by two to the 64th and divided by the
    /// divisor's magnitude.  `None` on a zero divisor or where the quotient
    /// does not fit.
    pub fn checked_div(&self, rhs: Q64_64) -> (r: Option<Q64_64>)
        ensures
            rhs@ == 0 ==> r is None,
            rhs@ != 0 && (self@ * pow2_64()) / rhs@ < pow2_128() ==> (r matches Some(q) && q@
                == (self@ * pow2_64()) / rhs@),
            rhs@ != 0 && (self@ * pow2_64()) / rhs@ >= pow2_128() ==> r is None,
    {
        if rhs.value == 0 {
            return None;
        }
        let n = shl_64(self.value);
        let (q, rem) = div_rem_u256(&n, rhs.value);
        proof {
            lemma_fundamental_div_mod_converse(n@, rhs@, q@, rem as int);
        }
        if q.hi == 0 {
            Some(Q64_64 { value: q.lo })
        } else {
            None
        }
    }
}

/// The square of a magnitude, read back as an integer with the Q128.128
/// rounding rule; a square equal to one short-circuits to one.
pub open spec fn spec_square_as_u128(v: int) -> int {
    if v == 0 {
        0
    } else if v * v == 1 {
        1
    } else {
        q128_128_round_spec(v * v)
    }
}

/// The square of a magnitude as a `u64`, `None` where it does not fit.
pub open spec fn spec_checked_square_as_u64(v: int) -> Option<u64> {
    if v == 0 {
        Some(0u64)
    } else if v * v == 1 {
        Some(1u64)
    } else {
        q128_128_round_to_u64_spec(v * v)
    }
}

impl Q64_64 {
    /// The square of this value, rounded to an integer.
    pub fn square_as_u128(&self) -> (r: u128)
        ensures
            r == spec_square_as_u128(self@),
    {
        if self.value == 0 {
            return 0;
        }
        let p: U256 = mul_u128(self.value, self.value);
        if p.hi == 0 && p.lo == 1 {
            return 1;
        }
        p.q128_128_to_u128_round()
    }

    /// The square of this value rounded to a `u64`, `None` where it does not
    /// fit.
    pub fn checked_square_as_u64(&self) -> (r: Option<u64>)
        ensures
            r == spec_checked_square_as_u64(self@),
    {
        if self.value == 0 {
            return Some(0);
        }
        let p: U256 = mul_u128(self.value, self.value);
        if p.hi == 0 && p.lo == 1 {
            return Some(1);
        }
        p.checked_q128_128_to_u64_round()
    }

    /// The square of this value as a `u64`, on inputs where it fits.
    pub fn square_as_u64(&self) -> (r: u64)
        requires
            spec_checked_square_as_u64(self@) is Some,
        ensures
            Some(r) == spec_checked_square_as_u64(self@),
    {
        let checked = self.checked_square_as_u64();
        match checked {
            Some(v) => v,
            None => {
                proof {
                    assert(false);
                }
                0
            },
        }
    }

    /// The square of this value as another fixed-point value, rounded at the
    /// 64th fractional bit.
    pub fn square_as_q64_64(&self) -> (r: Q64_64)
        requires
            self@ < 0x1_0000_0000_0000_0000_0000_0000,
        ensures
            r@ == q128_128_round_spec(self@ * self@ * pow2_64()),
    {
        proof {
            assert(self@ * self@ < 0x1_0000_0000_0000_0000_0000_0000
                * 0x1_0000_0000_0000_0000_0000_0000) by (nonlinear_arith)
                requires
                    0 <= self@ < 0x1_0000_0000_0000_0000_0000_0000,
            ;
        }
        if self.value == 0 || self.value == BASE64 {
            proof {
                lemma_square_as_q64_64_fixpoints(self@);
            }
            return *self;
        }
        let p: U256 = mul_u128(self.value, self.value);
        let shifted = U256 { lo: (p.lo % BASE64) * BASE64, hi: p.hi * BASE64 + p.lo / BASE64 };
        proof {
            lemma_fundamental_div_mod(p.lo as int, pow2_64());
            assert(shifted@ == p@ * pow2_64()) by (nonlinear_arith)
                requires
                    shifted@ == (p.hi * pow2_64()) * pow2_128() + (p.lo as int / pow2_64())
                        * pow2_128() + (p.lo as int % pow2_64()) * pow2_64(),
                    p.lo as int == (p.lo as int / pow2_64()) * pow2_64() + p.lo as int % pow2_64(),
                    p@ == p.hi * pow2_128() + p.lo,
                    pow2_128() == pow2_64() * pow2_64(),
            ;
        }
        Q64_64 { value: shifted.q128_128_to_u128_round() }
    }

    /// The fixed-point square root of an integer.
    pub fn sqrt_from_u128(value: u128) -> (r: Q64_64)
        ensures
            r@ == sqrt_floor(value * pow2_128()),
            is_sqrt_floor(value * pow2_128(), r@),
    {
        Q64_64 { value: sqrt_u256(&U256 { lo: 0, hi: value }) }
    }

    /// The square root of this fixed-point value.
    pub fn sqrt(&self) -> (r: Q64_64)
        ensures
            r@ == sqrt_floor(self@ * pow2_64()),
            is_sqrt_floor(self@ * pow2_64(), r@),
    {
        let n = shl_64(self.value);
        Q64_64 { value: sqrt_u256(&n) }
    }

    /// The square root of the ratio of two fixed-point values: `None` on a
    /// zero divisor, otherwise the root of the quotient, each rounded down.
    pub fn div_sqrt(q1: Q64_64, q2: Q64_64) -> (r: Option<Q64_64>)
        ensures
            q2@ == 0 ==> r is None,
            q2@ != 0 ==> (r matches Some(s) && s@ == sqrt_floor((q1@ * pow2_128()) / q2@)
                && is_sqrt_floor((q1@ * pow2_128()) / q2@, s@)),
    {
        if q2.value == 0 {
            return None;
        }
        if q1.value == q2.value {
            proof {
                lemma_div_by_multiple(pow2_128(), q1@);
                assert(q1@ * pow2_128() == pow2_128() * q1@) by (nonlinear_arith);
                assert(is_sqrt_floor(pow2_128(), pow2_64()));
                lemma_sqrt_floor_unique(pow2_128(), pow2_64());
            }
            return Some(Q64_64 { value: BASE64 });
        }
        let n = U256 { lo: 0, hi: q1.value };
        let (q, rem) = div_rem_u256(&n, q2.value);
        proof {
            lemma_fundamental_div_mod_converse(n@, q2@, q@, rem as int);
        }
        let s: u128 = sqrt_u256(&q);
        Some(Q64_64 { value: s })
    }
}

/// Zero and one are fixed points of squaring.
proof fn lemma_square_as_q64_64_fixpoints(v: int)
    requires
        v == 0 || v == pow2_64(),
    ensures
        v == q128_128_round_spec(v * v * pow2_64()),
{
    if v == 0 {
        assert(v * v * pow2_64() == 0) by (nonlinear_arith)
            requires
                v == 0,
        ;
    } else {
        let big: int = 0x1_0000_0000_0000_0000_0000_0000_0000_0000_0000_0000_0000_0000int;
        assert(v * v * pow2_64() == 0x1_0000_0000_0000_0000_0000_0000_0000_0000_0000_0000_0000_0000int)
            by (nonlinear_arith)
            requires
                v == 0x1_0000_0000_0000_0000,
        ;
        lemma_fundamental_div_mod_converse(big, pow2_128(), pow2_64(), 0);
    }
}

/// Half of one, as a raw Q64.64 fractional part.
pub const HALF_FRACTION: u128 = 0x8000_0000_0000_0000;

/// A magnitude rounded to the nearest integer: the fraction rounds up from
/// one half, except at the very top of the range where the integer part is
/// kept.
pub open spec fn spec_as_u64_round(v: int) -> int {
    let ipart = v / pow2_64();
    if ipart < 0xffff_ffff_ffff_ffff && v % pow2_64() >= HALF_FRACTION {
        ipart + 1
    } else {
        ipart
    }
}

impl Q64_64 {
    /// The integer nearest this value, rounding halves up; saturated at the
    /// top of the `u64` range.
    pub fn as_u64_round(&self) -> (r: u64)
        ensures
            r == spec_as_u64_round(self@),
    {
        let ipart: u64 = (self.value / BASE64) as u64;
        if ipart < 0xffff_ffff_ffff_ffff && self.value % BASE64 >= HALF_FRACTION {
            ipart + 1
        } else {
            ipart
        }
    }
}

/// Squaring the fixed-point square root of a positive integer returns to
/// within one of it: the round trip loses at most a single unit to
/// truncation and rounding.
pub proof fn lemma_sqrt_square_roundtrip_u64(v: u64)
    requires
        1 <= v,
    ensures
        v - 1 <= spec_square_as_u128(sqrt_floor(v * pow2_128())),
        spec_square_as_u128(sqrt_floor(v * pow2_128())) <= v,
{
    lemma_sqrt_floor(v * pow2_128());
    let s = sqrt_floor(v * pow2_128());
    // s lies between two to the 64th and two to the 96th.
    assert(s >= 0x1_0000_0000_0000_0000) by (nonlinear_arith)
        requires
            v >= 1,
            v * pow2_128() < (s + 1) * (s + 1),
            s >= 0,
    ;
    assert(s < 0x1_0000_0000_0000_0000_0000_0000) by (nonlinear_arith)
        requires
            s * s <= v * pow2_128(),
            v < 0x1_0000_0000_0000_0000,
            s >= 0,
    ;
    // The integer part of the square is v or v - 1.
    let ipart = (s * s) / pow2_128();
    assert(s * s >= (v - 1) * pow2_128()) by (nonlinear_arith)
        requires
            v * pow2_128() < (s + 1) * (s + 1),
            s < 0x1_0000_0000_0000_0000_0000_0000,
    ;
    assert(ipart >= v - 1) by {
        lemma_div_is_ordered((v - 1) * pow2_128(), s * s, pow2_128());
        lemma_div_by_multiple(v - 1, pow2_128());
    }
    assert(ipart <= v) by {
        lemma_div_is_ordered(s * s, v * pow2_128(), pow2_128());
        lemma_div_by_multiple(v as int, pow2_128());
    }
    // The square is far from one, so the general rounding path is taken.
    assert(s * s != 1) by (nonlinear_arith)
        requires
            s >= 0x1_0000_0000_0000_0000,
    ;
    if ipart == v {
        // The root is exact, so the fractional part is zero and nothing is
        // rounded up.
        lemma_fundamental_div_mod(s * s, pow2_128());
        assert(s * s == v * pow2_128() + (s * s) % pow2_128());
        assert((s * s) % pow2_128() == 0);
    }
}

/// Squaring the square root of a fixed-point value returns to within one
/// billionth of it, for raw magnitudes of at least two billion (fixed-point
/// values of at least about a ten-billionth): truncation in the root and
/// rounding in the square move the magnitude by at most one part per
/// billion.
pub proof fn lemma_sqrt_square_roundtrip_q64_64(w: int)
    requires
        2_000_000_000 <= w < pow2_128(),
    ensures
        ({
            let s = sqrt_floor(w * pow2_64());
            let r = q128_128_round_spec(s * s * pow2_64());
            r <= w + 1 && (if r >= w {
                r - w
            } else {
                w - r
            }) * 1_000_000_000 <= w
        }),
{
    lemma_sqrt_floor(w * pow2_64());
    let s = sqrt_floor(w * pow2_64());
    let d = w * pow2_64() - s * s;
    assert(0 <= d && d <= 2 * s) by (nonlinear_arith)
        requires
            s * s <= w * pow2_64(),
            w * pow2_64() < (s + 1) * (s + 1),
            d == w * pow2_64() - s * s,
    ;
    let x = s * s * pow2_64();
    let f = d / pow2_64();
    lemma_fundamental_div_mod(d, pow2_64());
    // The defect is either below one whole fractional unit, or a vanishing
    // share of a necessarily huge w.
    if s < 0x8000_0000_0000_0000 {
        assert(f == 0) by (nonlinear_arith)
            requires
                0 <= d,
                d <= 2 * s,
                s < 0x8000_0000_0000_0000,
                d == pow2_64() * f + d % pow2_64(),
                0 <= d % pow2_64() < pow2_64(),
                pow2_64() == 0x1_0000_0000_0000_0000,
        ;
    } else {
        assert(f * 2_000_000_000 <= w) by (nonlinear_arith)
            requires
                pow2_64() * f <= d,
                d <= 2 * s,
                s >= 0x8000_0000_0000_0000,
                s * s <= w * pow2_64(),
                pow2_64() == 0x1_0000_0000_0000_0000,
                0 <= f,
        ;
    }
    assert(f + 1 <= w);
    let ipart = x / pow2_128();
    // x is w * pow2_128() minus d * pow2_64(), so its Q128.128 integer part
    // lies between w - f - 1 and w.
    assert((w - f - 1) * pow2_128() <= x && x <= w * pow2_128()) by (nonlinear_arith)
        requires
            x == s * s * pow2_64(),
            d == w * pow2_64() - s * s,
            d == pow2_64() * f + d % pow2_64(),
            0 <= d % pow2_64() < pow2_64(),
            0 <= f,
            pow2_128() == pow2_64() * pow2_64(),
    ;
    assert(ipart >= w - f - 1) by {
        lemma_div_is_ordered((w - f - 1) * pow2_128(), x, pow2_128());
        lemma_div_by_multiple(w - f - 1, pow2_128());
    }
    assert(ipart <= w) by {
        lemma_div_is_ordered(x, w * pow2_128(), pow2_128());
        lemma_div_by_multiple(w, pow2_128());
    }
    let r = q128_128_round_spec(x);
    assert(ipart <= r <= ipart + 1);
    assert((if r >= w { r - w } else { w - r }) <= f + 1);
    assert((f + 1) * 1_000_000_000 <= w) by (nonlinear_arith)
        requires
            f == 0 || f * 2_000_000_000 <= w,
            0 <= f,
            w >= 2_000_000_000,
    ;
    assert((if r >= w { r - w } else { w - r }) * 1_000_000_000 <= (f + 1) * 1_000_000_000)
        by (nonlinear_arith)
        requires
            (if r >= w { r - w } else { w - r }) <= f + 1,
            0 <= (if r >= w { r - w } else { w - r }),
    ;
}

/// The square of any magnitude is non-negative.
pub proof fn lemma_spec_square_as_u128_nonneg(v: int)
    ensures
        0 <= spec_square_as_u128(v),
{
    assert(0 <= v * v) by (nonlinear_arith);
    lemma_div_is_ordered(0, v * v, pow2_128());
}

impl Q64_64 {
    /// The fixed-point product, saturated at the largest representable
    /// value instead of failing on overflow.
    pub fn saturating_mul(&self, rhs: Q64_64) -> (r: Q64_64)
        ensures
            (self@ * rhs@) / pow2_64() < pow2_128() ==> r@ == (self@ * rhs@) / pow2_64(),
            (self@ * rhs@) / pow2_64() >= pow2_128() ==> r@ == pow2_128() - 1,
    {
        match self.checked_mul(rhs) {
            Some(v) => v,
            None => Q64_64 { value: u128::MAX },
        }
    }

    /// The fixed-point quotient, saturated at the largest representable
    /// value on overflow; `None` only on a zero divisor.
    pub fn saturating_checked_div(&self, rhs: Q64_64) -> (r: Option<Q64_64>)
        ensures
            rhs@ == 0 ==> r is None,
            rhs@ != 0 && (self@ * pow2_64()) / rhs@ < pow2_128() ==> (r matches Some(q) && q@
                == (self@ * pow2_64()) / rhs@),
            rhs@ != 0 && (self@ * pow2_64()) / rhs@ >= pow2_128() ==> (r matches Some(q) && q@
                == pow2_128() - 1),
    {
        if rhs.value == 0 {
            return None;
        }
        match self.checked_div(rhs) {
            Some(v) => Some(v),
            None => Some(Q64_64 { value: u128::MAX }),
        }
    }
}

} // verus!
