//! 256-bit unsigned arithmetic.
//!
//! The fixed-point type stores its magnitude in a `u128`; its multiplication,
//! division and square root widen to 256 bits before truncating back.  This
//! module provides that intermediate width: full 128x128-bit products, long
//! division of a 256-bit value by a 128-bit divisor, and the integer square
//! root, each with an exact contract.

use vstd::prelude::*;

verus! {

use vstd::arithmetic::div_mod::{
    lemma_fundamental_div_mod,
    lemma_fundamental_div_mod_converse,
    lemma_div_is_ordered,
    lemma_div_denominator,
    lemma_div_is_ordered_by_denominator,
};
use vstd::arithmetic::power2::{
    pow2,
    lemma2_to64,
    lemma2_to64_rest,
    lemma_pow2_adds,
    lemma_pow2_pos,
    lemma_pow2_strictly_increases,
};

/// Two to the 64th: the base in which 128-bit values are split into limbs.
pub const BASE64: u128 = 0x1_0000_0000_0000_0000;

/// Two to the 128th, as a specification-level integer.
pub open spec fn pow2_128() -> int {
    0x1_0000_0000_0000_0000_0000_0000_0000_0000int
}

/// Two to the 64th, as a specification-level integer.
pub open spec fn pow2_64() -> int {
    0x1_0000_0000_0000_0000
}

/// An unsigned 256-bit integer, stored as two 128-bit halves.
#[derive(Clone, Copy, Debug)]
pub struct U256 {
    /// The 128 least significant bits.
    pub lo: u128,
    /// The 128 most significant bits.
    pub hi: u128,
}

impl View for U256 {
    type V = int;

    open spec fn view(&self) -> int {
        self.hi * pow2_128() + self.lo
    }
}

impl U256 {
    /// The value zero.
    pub fn zero() -> (r: U256)
        ensures
            r@ == 0,
    {
        U256 { lo: 0, hi: 0 }
    }

    /// Widens a `u128` to 256 bits.
    pub fn from_u128(v: u128) -> (r: U256)
        ensures
            r@ == v,
    {
        U256 { lo: v, hi: 0 }
    }

    /// The value as a `u128`, or `None` where it does not fit.
    pub fn checked_as_u128(&self) -> (r: Option<u128>)
        ensures
            self@ < pow2_128() ==> r == Some(self.lo) && self.lo == self@,
            self@ >= pow2_128() ==> r is None,
    {
        if self.hi == 0 {
            Some(self.lo)
        } else {
            None
        }
    }

    /// The value as a `u64`, or `None` where it does not fit.
    pub fn checked_as_u64(&self) -> (r: Option<u64>)
        ensures
            self@ < pow2_64() ==> r == Some(self.lo as u64) && self.lo as u64 == self@,
            self@ >= pow2_64() ==> r is None,
    {
        if self.hi == 0 && self.lo < BASE64 {
            Some(self.lo as u64)
        } else {
            None
        }
    }
}

/// Two to the 120th: the divisor that isolates the top eight fractional bits
/// of a Q128.128 value.
pub const FRAC_TOP8: u128 = 0x100_0000_0000_0000_0000_0000_0000_0000;

/// Rounding a non-negative Q128.128 value to an integer.
///
/// The integer part is kept as is when it is zero or saturated; otherwise it
/// is bumped by one when the top eight fractional bits exceed one half.
pub open spec fn q128_128_round_spec(x: int) -> int {
    let ipart = x / pow2_128();
    if ipart == 0 || ipart == 0xffff_ffff_ffff_ffff_ffff_ffff_ffff_ffffint {
        ipart
    } else if (x % pow2_128()) / FRAC_TOP8 as int > 128 {
        ipart + 1
    } else {
        ipart
    }
}

/// Rounding a non-negative Q128.128 value to a `u64`, `None` on overflow.
///
/// A zero or saturated integer part is mapped to `u64::MAX`, a sentinel for
/// callers; otherwise the top eight fractional bits decide the bump.
pub open spec fn q128_128_round_to_u64_spec(x: int) -> Option<u64> {
    let ipart = x / pow2_128();
    if ipart >= pow2_64() {
        None
    } else if ipart == 0 || ipart == 0xffff_ffff_ffff_ffffint {
        Some(u64::MAX)
    } else if (x % pow2_128()) / FRAC_TOP8 as int > 128 {
        Some((ipart + 1) as u64)
    } else {
        Some(ipart as u64)
    }
}

impl U256 {
    /// The integer square root, rounded down.
    pub fn sqrt(&self) -> (r: U256)
        ensures
            r@ == sqrt_floor(self@),
            is_sqrt_floor(self@, r@),
    {
        U256 { lo: sqrt_u256(self), hi: 0 }
    }

    /// Reads this value as a Q128.128 fixed-point number and rounds it to an
    /// integer.
    pub fn q128_128_to_u128_round(&self) -> (r: u128)
        ensures
            r == q128_128_round_spec(self@),
    {
        proof {
            lemma_div_mod_halves(self.lo, self.hi);
        }
        let ipart: u128 = self.hi;
        if ipart == 0 || ipart == u128::MAX {
            ipart
        } else if self.lo / FRAC_TOP8 > 128 {
            ipart + 1
        } else {
            ipart
        }
    }

    /// Reads this value as a Q128.128 fixed-point number and rounds it to a
    /// `u64`; `None` where the integer part does not fit.
    pub fn checked_q128_128_to_u64_round(&self) -> (r: Option<u64>)
        ensures
            r == q128_128_round_to_u64_spec(self@),
    {
        proof {
            lemma_div_mod_halves(self.lo, self.hi);
        }
        if self.hi >= BASE64 {
            None
        } else {
            let ipart: u64 = self.hi as u64;
            if ipart == 0 || ipart == u64::MAX {
                Some(u64::MAX)
            } else if self.lo / FRAC_TOP8 > 128 {
                Some(ipart + 1)
            } else {
                Some(ipart)
            }
        }
    }

    /// The top `bits_amount` bits of the low 128-bit (fractional) half.
    pub fn get_fractional_bits(&self, bits_amount: u8) -> (r: u64)
        requires
            bits_amount <= 64,
        ensures
            bits_amount == 0 ==> r == 0,
            bits_amount > 0 ==> r == self.lo as int / (pow2((128 - bits_amount) as nat) as int),
    {
        if bits_amount == 0 {
            return 0;
        }
        let small: u64 = pow2_u64(64 - bits_amount as u64);
        proof {
            lemma_pow2_pos((64 - bits_amount) as nat);
        }
        let coarse: u128 = self.lo / BASE64;
        let r: u128 = coarse / (small as u128);
        proof {
            lemma_pow2_concrete();
            lemma_pow2_adds(64, (64 - bits_amount) as nat);
            lemma_div_denominator(self.lo as int, pow2_64(), small as int);
            assert(r < pow2_64()) by {
                lemma_div_is_ordered(coarse as int, pow2_64() - 1, small as int);
                lemma_div_is_ordered_by_denominator(pow2_64() - 1, 1, small as int);
            }
        }
        r as u64
    }
}

/// The halves of a `U256` are its value's quotient and remainder by two to
/// the 128th.
proof fn lemma_div_mod_halves(lo: u128, hi: u128)
    ensures
        (hi * pow2_128() + lo) / pow2_128() == hi,
        (hi * pow2_128() + lo) % pow2_128() == lo,
{
    lemma_fundamental_div_mod_converse(hi * pow2_128() + lo, pow2_128(), hi as int, lo as int);
}

/// Two to the `e`-th as a `u64`.
fn pow2_u64(e: u64) -> (r: u64)
    requires
        e < 64,
    ensures
        r == pow2(e as nat),
{
    let mut r: u64 = 1;
    let mut j: u64 = 0;
    proof {
        lemma2_to64();
    }
    while j < e
        invariant
            j <= e < 64,
            r == pow2(j as nat),
        decreases e - j,
    {
        proof {
            lemma_pow2_adds(j as nat, 1);
            lemma2_to64();
            lemma_pow2_strictly_increases(j as nat, 63);
            lemma2_to64_rest();
        }
        r = r * 2;
        j = j + 1;
    }
    r
}

/// The product of two limbs below two to the 64th stays below two to the 128th.
proof fn lemma_limb_product_bound(x: u128, y: u128)
    by (nonlinear_arith)
    requires
        x < 0x1_0000_0000_0000_0000,
        y < 0x1_0000_0000_0000_0000,
    ensures
        x * y <= (0x1_0000_0000_0000_0000 - 1) * (0x1_0000_0000_0000_0000 - 1),
{
}

/// Expanding a product of two values split into 64-bit limbs.
proof fn lemma_mul_limbs(a: int, b: int, a1: int, a0: int, b1: int, b0: int)
    by (nonlinear_arith)
    requires
        a == a1 * 0x1_0000_0000_0000_0000 + a0,
        b == b1 * 0x1_0000_0000_0000_0000 + b0,
    ensures
        a * b == (a1 * b1) * 0x1_0000_0000_0000_0000_0000_0000_0000_0000int + (a1 * b0)
            * 0x1_0000_0000_0000_0000 + (a0 * b1) * 0x1_0000_0000_0000_0000 + a0 * b0,
{
}

/// Whether `r` is the integer square root of `n` rounded down.
pub open spec fn is_sqrt_floor(n: int, r: int) -> bool {
    0 <= r && r * r <= n && n < (r + 1) * (r + 1)
}

/// The integer square root of `n`, rounded down.
pub open spec fn sqrt_floor(n: int) -> int {
    choose|r: int| #[trigger] is_sqrt_floor(n, r)
}

/// Every non-negative integer has an integer square root.
proof fn lemma_sqrt_floor_exists(n: int)
    requires
        n >= 0,
    ensures
        exists|r: int| #[trigger] is_sqrt_floor(n, r),
    decreases n,
{
    if n == 0 {
        assert(is_sqrt_floor(0, 0));
    } else {
        lemma_sqrt_floor_exists(n - 1);
        let r = choose|r: int| #[trigger] is_sqrt_floor(n - 1, r);
        if n < (r + 1) * (r + 1) {
            assert(is_sqrt_floor(n, r));
        } else {
            assert(is_sqrt_floor(n, r + 1)) by (nonlinear_arith)
                requires
                    is_sqrt_floor(n - 1, r),
                    n >= (r + 1) * (r + 1),
            ;
        }
    }
}

/// `sqrt_floor` satisfies its defining property.
pub proof fn lemma_sqrt_floor(n: int)
    requires
        n >= 0,
    ensures
        is_sqrt_floor(n, sqrt_floor(n)),
{
    lemma_sqrt_floor_exists(n);
}

/// No integer other than `sqrt_floor(n)` satisfies the defining property.
pub proof fn lemma_sqrt_floor_unique(n: int, r: int)
    requires
        n >= 0,
        is_sqrt_floor(n, r),
    ensures
        r == sqrt_floor(n),
{
    lemma_sqrt_floor(n);
    let s = sqrt_floor(n);
    assert(r == s) by (nonlinear_arith)
        requires
            is_sqrt_floor(n, r),
            is_sqrt_floor(n, s),
    ;
}

/// Whether `a` is at most `b`, by value.
pub fn le_u256(a: &U256, b: &U256) -> (r: bool)
    ensures
        r == (a@ <= b@),
{
    a.hi < b.hi || (a.hi == b.hi && a.lo <= b.lo)
}

/// The integer square root of a 256-bit value, rounded down.
///
/// The root of a value below two to the 256th always fits in a `u128`.  The
/// search narrows a bracket `low..=high` by bisection, squaring the midpoint
/// through the full 256-bit product.
pub fn sqrt_u256(n: &U256) -> (r: u128)
    ensures
        r == sqrt_floor(n@),
        is_sqrt_floor(n@, r as int),
{
    let mut low: u128 = 0;
    let mut high: u128 = u128::MAX;
    proof {
        assert((high + 1) * (high + 1) > n@);
    }
    while low < high
        invariant
            low <= high,
            low * low <= n@,
            n@ < (high + 1) * (high + 1),
        decreases high - low,
    {
        let half: u128 = (high - low) / 2;
        let mid: u128 = high - half;
        let sq = mul_u128(mid, mid);
        if le_u256(&sq, n) {
            low = mid;
        } else {
            high = mid - 1;
        }
    }
    proof {
        lemma_sqrt_floor_unique(n@, low as int);
    }
    low
}

/// Two to the 127th: the most significant bit of a `u128`.
pub const TOP_BIT: u128 = 0x8000_0000_0000_0000_0000_0000_0000_0000;

/// Concrete values of the powers of two the division walks through.
proof fn lemma_pow2_concrete()
    ensures
        pow2(64) == pow2_64(),
        pow2(127) == TOP_BIT,
        pow2(128) == pow2_128(),
        pow2(256) == pow2_128() * pow2_128(),
        pow2(255) == TOP_BIT * pow2_128(),
{
    lemma2_to64();
    lemma2_to64_rest();
    lemma_pow2_adds(64, 63);
    lemma_pow2_adds(64, 64);
    lemma_pow2_adds(128, 128);
    lemma_pow2_adds(127, 128);
}

/// Long division of a 256-bit value by a non-zero 128-bit divisor.
///
/// Restoring binary division: the dividend's bits enter a remainder from the
/// most significant end; whenever the remainder reaches the divisor it is
/// reduced and a quotient bit is set.  Returns the quotient and the remainder.
pub fn div_rem_u256(n: &U256, d: u128) -> (r: (U256, u128))
    requires
        d > 0,
    ensures
        n@ == r.0@ * d + r.1,
        r.1 < d,
{
    let mut q = U256 { lo: 0, hi: 0 };
    let mut rem: u128 = 0;
    let mut m = *n;
    let mut i: usize = 0;
    proof {
        lemma_pow2_concrete();
        lemma_pow2_pos(256);
        lemma2_to64();
    }
    let ghost mut rest: int = n@;
    proof {
        assert(q@ == 0);
        assert((q@ * d + rem) * pow2(256) == 0) by (nonlinear_arith)
            requires
                q@ == 0,
                rem == 0,
        ;
    }
    while i < 256
        invariant
            d > 0,
            i <= 256,
            rem < d,
            0 <= rest < pow2((256 - i) as nat),
            m@ == rest * pow2(i as nat),
            0 <= q@ < pow2(i as nat),
            n@ == (q@ * d + rem) * pow2((256 - i) as nat) + rest,
        decreases 256 - i,
    {
        let ghost k: nat = (256 - i) as nat;
        let ghost b: int = rest / (pow2((k - 1) as nat) as int);
        let ghost s: int = rest % (pow2((k - 1) as nat) as int);
        proof {
            lemma_pow2_concrete();
            lemma2_to64();
            lemma_pow2_pos((k - 1) as nat);
            lemma_pow2_pos(i as nat);
            lemma_pow2_adds((k - 1) as nat, 1);
            lemma_pow2_adds((k - 1) as nat, i as nat);
            lemma_pow2_adds(i as nat, 1);
            lemma_fundamental_div_mod(rest, pow2((k - 1) as nat) as int);
            // rest = b * pow2(k-1) + s with 0 <= s < pow2(k-1) and b in {0, 1}.
            assert(0 <= b < 2) by (nonlinear_arith)
                requires
                    rest == b * pow2((k - 1) as nat) + s,
                    0 <= s < pow2((k - 1) as nat),
                    0 <= rest < 2 * pow2((k - 1) as nat),
                    pow2((k - 1) as nat) > 0,
            ;
            // m = b * pow2(255) + s * pow2(i), and the second part is below pow2(255).
            assert(rest * pow2(i as nat) == b * (pow2((k - 1) as nat) * pow2(i as nat)) + s * pow2(
                i as nat,
            )) by (nonlinear_arith)
                requires
                    rest == b * pow2((k - 1) as nat) + s,
            ;
            assert(pow2((k - 1) as nat) * pow2(i as nat) == pow2(255)) by {
                lemma_pow2_adds((k - 1) as nat, i as nat);
            }
            assert(s * pow2(i as nat) < pow2(255)) by (nonlinear_arith)
                requires
                    0 <= s < pow2((k - 1) as nat),
                    pow2(i as nat) > 0,
                    pow2((k - 1) as nat) * pow2(i as nat) == pow2(255),
            ;
            assert(m@ == b * pow2(255) + s * pow2(i as nat));
        }
        // The next bit of the dividend, read from the top of m.
        let bit: u128 = m.hi / TOP_BIT;
        proof {
            // The top bit of m@ is exactly b.
            let low255: int = s * pow2(i as nat);
            assert(m@ == (b * TOP_BIT) * pow2_128() + low255) by (nonlinear_arith)
                requires
                    m@ == b * (TOP_BIT * pow2_128()) + low255,
            ;
            lemma_fundamental_div_mod_converse(
                m@,
                pow2_128(),
                b * TOP_BIT + low255 / pow2_128(),
                low255 % pow2_128(),
            );
            lemma_fundamental_div_mod(low255, pow2_128());
            assert(low255 / pow2_128() < TOP_BIT) by {
                lemma_div_is_ordered(low255, (TOP_BIT * pow2_128()) - 1, pow2_128());
                assert(((TOP_BIT * pow2_128()) - 1) / pow2_128() == TOP_BIT - 1) by {
                    lemma_fundamental_div_mod_converse(
                        (TOP_BIT * pow2_128()) - 1,
                        pow2_128(),
                        TOP_BIT - 1,
                        pow2_128() - 1,
                    );
                }
            }
            assert(m.hi == b * TOP_BIT + low255 / pow2_128());
            lemma_fundamental_div_mod_converse(
                m.hi as int,
                TOP_BIT as int,
                b,
                low255 / pow2_128(),
            );
            assert(bit == b);
        }
        // Shift the processed bit out of m.
        let old_m: U256 = m;
        m =
        U256 {
            lo: (m.lo % TOP_BIT) * 2,
            hi: (m.hi % TOP_BIT) * 2 + m.lo / TOP_BIT,
        };
        proof {
            lemma_fundamental_div_mod(old_m.hi as int, TOP_BIT as int);
            lemma_fundamental_div_mod(old_m.lo as int, TOP_BIT as int);
            assert(m@ == 2 * (old_m@ - b * (TOP_BIT * pow2_128())));
            assert(m@ == 2 * (s * pow2(i as nat)));
            assert(m@ == s * pow2((i + 1) as nat)) by (nonlinear_arith)
                requires
                    m@ == 2 * (s * pow2(i as nat)),
                    pow2((i + 1) as nat) == 2 * pow2(i as nat),
            ;
        }
        // rem2 = 2 * rem + bit, kept as a carry bit and 128 low bits.
        let carry: u128 = rem / TOP_BIT;
        let rem2lo: u128 = (rem % TOP_BIT) * 2 + bit;
        let ghost rem2: int = 2 * rem + bit;
        proof {
            lemma_fundamental_div_mod(rem as int, TOP_BIT as int);
            assert(carry <= 1);
            assert(carry * pow2_128() + rem2lo == rem2);
        }
        let qbit: u128 = if carry == 1 || rem2lo >= d {
            1
        } else {
            0
        };
        let old_rem: u128 = rem;
        rem =
        if carry == 1 {
            rem2lo + ((u128::MAX - d) + 1)
        } else if rem2lo >= d {
            rem2lo - d
        } else {
            rem2lo
        };
        proof {
            assert(rem == rem2 - qbit * d);
            assert(rem < d);
        }
        // Shift the new bit into the quotient.
        let old_q: U256 = q;
        proof {
            assert(old_q.hi < TOP_BIT) by {
                if i < 255 {
                    lemma_pow2_strictly_increases(i as nat, 255);
                }
                assert(q@ < TOP_BIT * pow2_128());
            }
        }
        q =
        U256 {
            lo: (q.lo % TOP_BIT) * 2 + qbit,
            hi: q.hi * 2 + q.lo / TOP_BIT,
        };
        proof {
            lemma_fundamental_div_mod(old_q.lo as int, TOP_BIT as int);
            assert(q@ == 2 * old_q@ + qbit);
            assert(q@ < pow2((i + 1) as nat));
            // Re-establish the dividend relation one bit further in.
            assert((q@ * d + rem) * pow2((k - 1) as nat) == (2 * (old_q@ * d + old_rem) + b) * pow2(
                (k - 1) as nat,
            )) by (nonlinear_arith)
                requires
                    q@ == 2 * old_q@ + qbit,
                    rem == 2 * old_rem + b - qbit * d,
            ;
            assert((2 * (old_q@ * d + old_rem) + b) * pow2((k - 1) as nat) == (old_q@ * d + old_rem)
                * pow2(k) + b * pow2((k - 1) as nat)) by (nonlinear_arith)
                requires
                    pow2(k) == 2 * pow2((k - 1) as nat),
            ;
            assert(n@ == (q@ * d + rem) * pow2((k - 1) as nat) + s);
            rest = s;
        }
        i = i + 1;
    }
    proof {
        assert(pow2(0) == 1) by {
            lemma2_to64();
        }
        assert(rest == 0);
        assert(n@ == (q@ * d + rem) * 1 + 0);
    }
    (q, rem)
}

/// The full 256-bit product of two `u128` values.
pub fn mul_u128(a: u128, b: u128) -> (r: U256)
    ensures
        r@ == a * b,
{
    let a1: u128 = a / BASE64;
    let a0: u128 = a % BASE64;
    let b1: u128 = b / BASE64;
    let b0: u128 = b % BASE64;
    proof {
        lemma_limb_product_bound(a1, b1);
        lemma_limb_product_bound(a1, b0);
        lemma_limb_product_bound(a0, b1);
        lemma_limb_product_bound(a0, b0);
    }
    let hh: u128 = a1 * b1;
    let lh: u128 = a1 * b0;
    let hl: u128 = a0 * b1;
    let ll: u128 = a0 * b0;
    // Fold the two middle products into the halves, carrying through BASE64.
    let m1: u128 = lh + ll / BASE64;
    let m2: u128 = hl + m1 % BASE64;
    let lo: u128 = (m2 % BASE64) * BASE64 + ll % BASE64;
    let hi: u128 = hh + m1 / BASE64 + m2 / BASE64;
    proof {
        lemma_mul_limbs(a as int, b as int, a1 as int, a0 as int, b1 as int, b0 as int);
    }
    U256 { lo, hi }
}

/// A `u128` scaled up by two to the 64th, as a 256-bit value.
pub fn shl_64(v: u128) -> (r: U256)
    ensures
        r@ == v * pow2_64(),
{
    let r = U256 { lo: (v % BASE64) * BASE64, hi: v / BASE64 };
    proof {
        lemma_fundamental_div_mod(v as int, pow2_64());
        assert(r@ == v * pow2_64()) by (nonlinear_arith)
            requires
                r@ == (v as int / pow2_64()) * pow2_128() + (v as int % pow2_64()) * pow2_64(),
                v as int == (v as int / pow2_64()) * pow2_64() + v as int % pow2_64(),
                pow2_128() == pow2_64() * pow2_64(),
        ;
    }
    r
}

} // verus!
