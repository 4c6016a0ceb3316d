//! Single precision numbers, held by their bit patterns.
//!
//! A value of [`F32`] is an IEEE 754 binary32 number in its interchange encoding: one sign bit,
//! eight exponent bits and twenty-three fraction bits. Numbers are carried, ordered and
//! truncated here; sums and products are left to the caller.

use vstd::prelude::*;

verus! {

/// The encoding of positive infinity; every larger magnitude is a NaN.
pub const INFINITY_BITS: u32 = 0x7f80_0000;

/// The encoding of the largest finite number.
pub const LARGEST_FINITE_BITS: u32 = 0x7f7f_ffff;

/// A binary32 number, as its 32 bits.
///
/// `==` on this type compares bit patterns. The numeric comparison is [`F32::same`].
#[derive(Clone, Copy, Debug, PartialEq, Eq, Structural)]
pub struct F32 {
    pub bits: u32,
}

impl F32 {
    /// The sign bit.
    pub open spec fn is_negative(self) -> bool {
        self.bits >= 0x8000_0000
    }

    /// The encoding without its sign bit.
    pub open spec fn magnitude(self) -> int {
        (self.bits as int) % 0x8000_0000
    }

    /// Whether the encoding stands for no number.
    pub open spec fn is_nan_spec(self) -> bool {
        self.magnitude() > INFINITY_BITS
    }

    /// The place of a number in the numeric order. Both zeros have rank 0.
    pub open spec fn rank(self) -> int {
        if self.is_negative() {
            -self.magnitude()
        } else {
            self.magnitude()
        }
    }

    /// `self < other` as numbers. No NaN is below or above anything.
    pub open spec fn lt_spec(self, other: F32) -> bool {
        !self.is_nan_spec() && !other.is_nan_spec() && self.rank() < other.rank()
    }

    /// `self == other` as numbers. No NaN equals anything, and the two zeros are equal.
    pub open spec fn same_spec(self, other: F32) -> bool {
        !self.is_nan_spec() && !other.is_nan_spec() && self.rank() == other.rank()
    }

    /// The larger of two numbers; of a number and a NaN, the number.
    pub open spec fn max_spec(self, other: F32) -> F32 {
        if self.is_nan_spec() || self.lt_spec(other) {
            other
        } else {
            self
        }
    }

    pub open spec fn exponent_field(self) -> int {
        self.magnitude() / 0x80_0000
    }

    pub open spec fn fraction_field(self) -> int {
        self.magnitude() % 0x80_0000
    }

    /// The integer that is multiplied by a power of two to give the number.
    pub open spec fn significand(self) -> int {
        if self.exponent_field() == 0 {
            self.fraction_field()
        } else {
            self.fraction_field() + 0x80_0000
        }
    }

    /// The exponent of that power of two.
    pub open spec fn scale(self) -> int {
        if self.exponent_field() == 0 {
            -149
        } else {
            self.exponent_field() - 150
        }
    }

    /// The integer part of the absolute value of a number.
    pub open spec fn whole(self) -> int {
        if self.scale() >= 0 {
            self.significand() * vstd::arithmetic::power2::pow2(self.scale() as nat)
        } else {
            self.significand() / (vstd::arithmetic::power2::pow2((-self.scale()) as nat) as int)
        }
    }

    /// The integer part of a number above zero; 0 for every other encoding.
    pub open spec fn whole_above_zero(self) -> int {
        if self.is_nan_spec() || self.is_negative() {
            0
        } else {
            self.whole()
        }
    }

    /// The integer part, brought into the range of `u32`: NaNs and numbers below zero give 0,
    /// numbers that are too large give the largest `u32`.
    pub open spec fn to_u32_spec(self) -> u32 {
        if self.whole_above_zero() <= u32::MAX {
            self.whole_above_zero() as u32
        } else {
            u32::MAX
        }
    }

    /// Whether the encoding stands for no number.
    pub fn is_nan(self) -> (res: bool)
        ensures
            res == self.is_nan_spec(),
    {
        self.bits % 0x8000_0000 > INFINITY_BITS
    }

    /// `self < other` as numbers.
    pub fn lt(self, other: F32) -> (res: bool)
        ensures
            res == self.lt_spec(other),
    {
        if self.is_nan() || other.is_nan() {
            return false;
        }
        let a: u32 = self.bits % 0x8000_0000;
        let b: u32 = other.bits % 0x8000_0000;
        if self.bits >= 0x8000_0000 {
            if other.bits >= 0x8000_0000 {
                b < a
            } else {
                a > 0 || b > 0
            }
        } else if other.bits >= 0x8000_0000 {
            false
        } else {
            a < b
        }
    }

    /// `self == other` as numbers.
    pub fn same(self, other: F32) -> (res: bool)
        ensures
            res == self.same_spec(other),
    {
        if self.is_nan() || other.is_nan() {
            return false;
        }
        self.bits == other.bits || (self.bits % 0x8000_0000 == 0 && other.bits % 0x8000_0000 == 0)
    }

    proof fn lemma_whole_is_not_negative(self)
        ensures
            self.whole() >= 0,
    {
        if self.scale() >= 0 {
            let p = vstd::arithmetic::power2::pow2(self.scale() as nat) as int;
            assert(self.significand() * p >= 0) by (nonlinear_arith)
                requires
                    self.significand() >= 0,
                    p >= 0,
            ;
        } else {
            let k = (-self.scale()) as nat;
            vstd::arithmetic::power2::lemma_pow2_pos(k);
            vstd::arithmetic::div_mod::lemma_div_pos_is_pos(
                self.significand(),
                vstd::arithmetic::power2::pow2(k) as int,
            );
        }
    }

    /// The larger of two numbers; of a number and a NaN, the number.
    pub fn max(self, other: F32) -> (res: F32)
        ensures
            res == self.max_spec(other),
    {
        if self.is_nan() || self.lt(other) {
            other
        } else {
            self
        }
    }

    /// The integer part of a number above zero, but no more than 2 to the power 32.
    fn whole_capped(self) -> (res: u64)
        ensures
            self.whole_above_zero() <= 0x1_0000_0000 ==> res == self.whole_above_zero(),
            self.whole_above_zero() > 0x1_0000_0000 ==> res == 0x1_0000_0000,
            0 <= self.whole_above_zero(),
    {
        if self.is_nan() || self.bits >= 0x8000_0000 {
            return 0;
        }
        let exponent: u32 = self.bits / 0x80_0000;
        let fraction: u32 = self.bits % 0x80_0000;
        proof {
            vstd::arithmetic::power2::lemma2_to64();
        }
        if exponent < 127 {
            proof {
                let k = (-self.scale()) as nat;
                assert(k >= 24);
                if k > 24 {
                    vstd::arithmetic::power2::lemma_pow2_strictly_increases(24, k);
                }
                vstd::arithmetic::div_mod::lemma_basic_div(
                    self.significand(),
                    vstd::arithmetic::power2::pow2(k) as int,
                );
            }
            return 0;
        }
        let significand: u64 = fraction as u64 + 0x80_0000;
        if exponent >= 159 {
            proof {
                let k = self.scale() as nat;
                if k > 9 {
                    vstd::arithmetic::power2::lemma_pow2_strictly_increases(9, k);
                }
                let p = vstd::arithmetic::power2::pow2(k) as int;
                assert(significand * p >= 0x80_0000 * 512) by (nonlinear_arith)
                    requires
                        significand >= 0x80_0000,
                        p >= 512,
                ;
            }
            return 0x1_0000_0000;
        }
        if exponent <= 150 {
            let shift: u64 = (150 - exponent) as u64;
            proof {
                vstd::bits::lemma_u64_shr_is_div(significand, shift);
                if shift == 0 {
                    assert(significand >> 0u64 == significand) by (bit_vector);
                    assert(self.scale() == 0);
                } else {
                    vstd::arithmetic::power2::lemma_pow2_pos(shift as nat);
                    vstd::arithmetic::div_mod::lemma_div_pos_is_pos(
                        significand as int,
                        vstd::arithmetic::power2::pow2(shift as nat) as int,
                    );
                    vstd::arithmetic::div_mod::lemma_div_nonincreasing(
                        significand as int,
                        vstd::arithmetic::power2::pow2(shift as nat) as int,
                    );
                }
            }
            significand >> shift
        } else {
            let shift: u64 = (exponent - 150) as u64;
            proof {
                let p = vstd::arithmetic::power2::pow2(shift as nat) as int;
                if shift < 8 {
                    vstd::arithmetic::power2::lemma_pow2_strictly_increases(shift as nat, 8);
                }
                assert(0 <= significand * p <= 0xff_ffff * 256) by (nonlinear_arith)
                    requires
                        0 <= significand <= 0xff_ffff,
                        0 <= p <= 256,
                ;
                vstd::bits::lemma_u64_shl_is_mul(significand, shift);
            }
            significand << shift
        }
    }

    /// The integer part, brought into the range of `u32`: NaNs and numbers below zero give 0,
    /// numbers that are too large give the largest `u32`.
    pub fn to_u32(self) -> (res: u32)
        ensures
            res == self.to_u32_spec(),
    {
        let whole: u64 = self.whole_capped();
        if whole <= u32::MAX as u64 {
            whole as u32
        } else {
            u32::MAX
        }
    }
}

/// The largest multiple of 32 that is no more than the integer part of a number above zero. A
/// number that does not fit in 32 bits gives the largest `u32`.
pub open spec fn aligned(value: F32) -> u32 {
    if value.whole_above_zero() <= u32::MAX {
        (value.whole_above_zero() - value.whole_above_zero() % 32) as u32
    } else {
        u32::MAX
    }
}

/// The size, in pixels, that a frame of the given size is cut down to: a multiple of 32.
pub fn align32(value: F32) -> (res: u32)
    ensures
        res == aligned(value),
{
    let whole: u64 = value.whole_capped();
    if whole <= u32::MAX as u64 {
        (whole - whole % 32) as u32
    } else {
        u32::MAX
    }
}

/// An aligned size is a multiple of 32 and loses less than 32 pixels, unless the size does not
/// fit in 32 bits.
pub proof fn law_aligned_size_is_close(value: F32)
    requires
        value.whole_above_zero() <= u32::MAX,
    ensures
        aligned(value) % 32 == 0,
        aligned(value) <= value.whole_above_zero() < aligned(value) + 32,
{
    if !value.is_nan_spec() && !value.is_negative() {
        value.lemma_whole_is_not_negative();
    }
}

/// Two encodings of one number: the same bits, unless they are a NaN, or both zeros.
pub open spec fn equal_numbers(a: F32, b: F32) -> bool {
    ||| a.bits == b.bits && a.bits % 0x8000_0000 <= 0x7f80_0000
    ||| a.bits % 0x8000_0000 == 0 && b.bits % 0x8000_0000 == 0
}

/// Numbers are the same where they have one encoding, except that no NaN is the same as anything
/// and that both zeros are.
pub proof fn law_same_numbers_have_the_same_bits(a: F32, b: F32)
    ensures
        a.same_spec(b) <==> equal_numbers(a, b),
        a.is_nan_spec() <==> 0x7f80_0000 < a.bits % 0x8000_0000,
{
}

/// The encodings are ordered as the numbers are. Those without a sign come in the order of their
/// bits, those with a sign in the opposite order and before all others, and the two zeros at one
/// place. NaNs have no place.
pub proof fn law_encodings_are_ordered_as_numbers(a: F32, b: F32)
    ensures
        0x7f80_0000 < a.bits % 0x8000_0000 || 0x7f80_0000 < b.bits % 0x8000_0000 ==> !a.lt_spec(b),
        a.bits <= 0x7f80_0000 && b.bits <= 0x7f80_0000 ==> (a.lt_spec(b) <==> a.bits < b.bits),
        0x8000_0000 <= a.bits <= 0xff80_0000 && 0x8000_0000 <= b.bits <= 0xff80_0000 ==> (a.lt_spec(
            b,
        ) <==> b.bits < a.bits),
        0x8000_0000 < a.bits <= 0xff80_0000 && b.bits <= 0x7f80_0000 ==> a.lt_spec(b),
        a.bits == 0x8000_0000 && b.bits <= 0x7f80_0000 ==> (a.lt_spec(b) <==> b.bits != 0),
        a.bits <= 0x7f80_0000 && 0x8000_0000 <= b.bits ==> !a.lt_spec(b),
{
}

/// The larger of two numbers is one of them and below neither. Of a number and a NaN it is the
/// number.
pub proof fn law_larger_number_is_below_neither(a: F32, b: F32)
    ensures
        a.max_spec(b) == a || a.max_spec(b) == b,
        !a.max_spec(b).lt_spec(a),
        !a.max_spec(b).lt_spec(b),
        a.is_nan_spec() ==> a.max_spec(b) == b,
        b.is_nan_spec() && !a.is_nan_spec() ==> a.max_spec(b) == a,
{
}

/// The whole part of a number, from its encoding: with `n` for the 24 leading digits, a number is
/// `n` times the power of two that is 150 below the exponent in its encoding. What is less than
/// one is cut off.
pub proof fn law_whole_part_is_encoded(n: int, exponent: int, value: F32)
    requires
        0x80_0000 <= n < 0x100_0000,
        0 < exponent < 255,
        value.bits == exponent * 0x80_0000 + n - 0x80_0000,
    ensures
        exponent >= 150 ==> value.whole_above_zero() == n * vstd::arithmetic::power2::pow2(
            (exponent - 150) as nat,
        ),
        exponent < 150 ==> {
            let p = vstd::arithmetic::power2::pow2((150 - exponent) as nat) as int;
            &&& p > 0
            &&& value.whole_above_zero() * p <= n < (value.whole_above_zero() + 1) * p
        },
{
    assert(value.magnitude() == value.bits);
    assert(value.exponent_field() == exponent);
    assert(value.fraction_field() == n - 0x80_0000);
    if exponent < 150 {
        let k = (150 - exponent) as nat;
        let p = vstd::arithmetic::power2::pow2(k) as int;
        vstd::arithmetic::power2::lemma_pow2_pos(k);
        assert(value.whole() == n / p);
        assert(n / p * p <= n < (n / p + 1) * p) by (nonlinear_arith)
            requires
                p > 0,
        ;
    }
}

/// Numbers below one, numbers with a sign and NaNs have no whole part. An infinite number has one
/// that does not fit in 32 bits.
pub proof fn law_small_numbers_have_no_whole_part(value: F32)
    ensures
        value.bits < 0x3f80_0000 ==> value.whole_above_zero() == 0,
        value.bits >= 0x8000_0000 ==> value.whole_above_zero() == 0,
        0x7f80_0000 < value.bits < 0x8000_0000 ==> value.whole_above_zero() == 0,
        value.bits == 0x7f80_0000 ==> value.whole_above_zero() > u32::MAX,
{
    vstd::arithmetic::power2::lemma2_to64();
    if value.bits < 0x3f80_0000 {
        let k = (-value.scale()) as nat;
        assert(k >= 24);
        if k > 24 {
            vstd::arithmetic::power2::lemma_pow2_strictly_increases(24, k);
        }
        vstd::arithmetic::div_mod::lemma_basic_div(
            value.significand(),
            vstd::arithmetic::power2::pow2(k) as int,
        );
    }
    if value.bits == 0x7f80_0000 {
        let k = value.scale() as nat;
        assert(k == 105);
        vstd::arithmetic::power2::lemma_pow2_strictly_increases(10, 105);
        let p = vstd::arithmetic::power2::pow2(k) as int;
        assert(value.significand() == 0x80_0000);
        assert(0x80_0000 * p > 0xffff_ffff) by (nonlinear_arith)
            requires
                p > 1024,
        ;
    }
}

/// A number is cut down to its whole part, or to the largest value that fits.
pub proof fn law_conversion_keeps_the_whole_part(value: F32)
    ensures
        value.to_u32_spec() <= value.whole_above_zero(),
        value.to_u32_spec() == value.whole_above_zero() || value.to_u32_spec() == u32::MAX
            && value.whole_above_zero() > u32::MAX,
        value.whole_above_zero() > u32::MAX ==> aligned(value) == u32::MAX,
{
    if !value.is_nan_spec() && !value.is_negative() {
        value.lemma_whole_is_not_negative();
    }
}

/// What is said of two numbers goes by their encodings: which of them is no number, whether they are
/// the same, which one is below the other, and which one is the larger.
pub proof fn law_numbers_go_by_their_encodings(
    a: F32,
    b: F32,
    nan: bool,
    same: bool,
    below: bool,
    larger: F32,
)
    requires
        call_ensures(F32::is_nan, (a,), nan),
        call_ensures(F32::same, (a, b), same),
        call_ensures(F32::lt, (a, b), below),
        call_ensures(F32::max, (a, b), larger),
    ensures
        nan <==> 0x7f80_0000 < a.bits % 0x8000_0000,
        same <==> equal_numbers(a, b),
        a.bits <= 0x7f80_0000 && b.bits <= 0x7f80_0000 ==> (below <==> a.bits < b.bits),
        0x8000_0000 <= a.bits <= 0xff80_0000 && 0x8000_0000 <= b.bits <= 0xff80_0000 ==> (below <==>
            b.bits < a.bits),
        0x8000_0000 < a.bits <= 0xff80_0000 && b.bits <= 0x7f80_0000 ==> below,
        a.bits <= 0x7f80_0000 && 0x8000_0000 <= b.bits ==> !below,
        nan ==> !below && larger == b,
        larger == a || larger == b,
        below ==> larger == b,
        a.bits <= 0x7f80_0000 && b.bits <= 0x7f80_0000 ==> larger.bits >= a.bits && larger.bits
            >= b.bits,
{
    law_same_numbers_have_the_same_bits(a, b);
    law_encodings_are_ordered_as_numbers(a, b);
    law_larger_number_is_below_neither(a, b);
}

/// A number is cut down to its whole part where that fits in 32 bits, and to the largest value
/// otherwise.
pub proof fn law_numbers_are_cut_down_to_their_whole_part(value: F32, res: u32)
    requires
        call_ensures(F32::to_u32, (value,), res),
    ensures
        value.whole_above_zero() <= u32::MAX ==> res == value.whole_above_zero(),
        value.whole_above_zero() > u32::MAX ==> res == u32::MAX,
        value.bits < 0x3f80_0000 ==> res == 0,
        value.bits >= 0x8000_0000 ==> res == 0,
        value.bits == 0x7f80_0000 ==> res == u32::MAX,
{
    law_conversion_keeps_the_whole_part(value);
    law_small_numbers_have_no_whole_part(value);
}

/// A size is cut down to the last multiple of 32 that its length reaches.
pub proof fn law_sizes_are_multiples_of_32(value: F32, res: u32)
    requires
        call_ensures(align32, (value,), res),
        value.whole_above_zero() <= u32::MAX,
    ensures
        res % 32 == 0,
        res <= value.whole_above_zero() < res + 32,
{
    law_aligned_size_is_close(value);
}

} // verus!
