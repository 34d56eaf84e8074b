//! Single-precision numbers held by their bit pattern.
//!
//! A `Scalar` is the 32 bits of an IEEE 754 binary32 number: one sign bit,
//! eight exponent bits, twenty-three fraction bits. What the library decides
//! about such a number (is it the same number as another, how is it written
//! with three decimals) is computed on the integers that the bits encode.

use crate::decimal::{decimal_digits, push_decimal, push_three_digits, three_digits};
use vstd::arithmetic::div_mod::{lemma_basic_div, lemma_fundamental_div_mod, lemma_small_mod};
use vstd::arithmetic::power2::{
    lemma2_to64, lemma2_to64_rest, lemma_pow2_adds, lemma_pow2_pos, lemma_pow2_strictly_increases,
    lemma_pow2_unfold, pow2,
};
use vstd::prelude::*;
use vstd::std_specs::cmp::PartialEqSpecImpl;

verus! {

/// A binary32 number, by its bits.
#[derive(Debug, Clone, Copy)]
pub struct Scalar {
    pub bits: u32,
}

/// `n / d` rounded to the nearest whole number, a tie going to the even one.
pub open spec fn round_half_even(n: nat, d: nat) -> nat
    recommends
        d > 0,
{
    let q = n / d;
    let r = n % d;
    if 2 * r > d || (2 * r == d && q % 2 == 1) {
        q + 1
    } else {
        q
    }
}

impl Scalar {
    /// Whether the sign bit is set.
    pub open spec fn negative(self) -> bool {
        self.bits >= 0x8000_0000
    }

    /// The eight exponent bits.
    pub open spec fn exponent(self) -> nat {
        (self.bits / 0x80_0000) as nat % 0x100
    }

    /// The twenty-three fraction bits.
    pub open spec fn fraction(self) -> nat {
        self.bits as nat % 0x80_0000
    }

    /// Whether the bits encode no number.
    pub open spec fn is_nan(self) -> bool {
        self.exponent() == 0xff && self.fraction() != 0
    }

    /// Positive or negative infinity.
    pub open spec fn is_infinite(self) -> bool {
        self.exponent() == 0xff && self.fraction() == 0
    }

    /// Neither infinite nor NaN.
    pub open spec fn is_finite(self) -> bool {
        self.exponent() != 0xff
    }

    /// Positive or negative zero.
    pub open spec fn is_zero(self) -> bool {
        self.exponent() == 0 && self.fraction() == 0
    }

    /// The integer that a finite number's magnitude is a power of two times:
    /// the fraction bits, with the implicit leading bit unless the number is
    /// subnormal.
    pub open spec fn significand(self) -> nat {
        if self.exponent() == 0 {
            self.fraction()
        } else {
            0x80_0000 + self.fraction()
        }
    }

    /// The power of two by which the significand is multiplied: the magnitude
    /// of a finite number is `significand() * 2^scale()`.
    pub open spec fn scale(self) -> int {
        if self.exponent() == 0 {
            -149
        } else {
            self.exponent() - 150
        }
    }

    /// A finite number's magnitude in thousandths, rounded to the nearest
    /// whole number of them, a tie going to the even one.
    pub open spec fn thousandths(self) -> nat
        recommends
            self.is_finite(),
    {
        if self.scale() >= 0 {
            self.significand() * pow2(self.scale() as nat) * 1000
        } else {
            round_half_even(self.significand() * 1000, pow2((-self.scale()) as nat))
        }
    }

    /// Whether two numbers are equal as IEEE 754 compares them: a NaN equals
    /// nothing, the two zeros equal each other, and any other number equals
    /// only itself.
    pub open spec fn same_number(self, other: Scalar) -> bool {
        &&& !self.is_nan()
        &&& !other.is_nan()
        &&& (self.bits == other.bits || (self.is_zero() && other.is_zero()))
    }

    /// The number written with exactly three decimals: `NaN`, `inf` and
    /// `-inf` for what is not finite, else an optional minus sign, the whole
    /// part, a point and three digits.
    pub open spec fn fixed3_text(self) -> Seq<char> {
        if self.is_nan() {
            seq!['N', 'a', 'N']
        } else {
            let sign = if self.negative() {
                seq!['-']
            } else {
                Seq::<char>::empty()
            };
            if self.is_infinite() {
                sign + seq!['i', 'n', 'f']
            } else {
                sign + decimal_digits(self.thousandths() / 1000) + seq!['.'] + three_digits(
                    self.thousandths() % 1000,
                )
            }
        }
    }

    /// Positive zero.
    pub fn zero() -> (number: Self)
        ensures
            number.bits == 0,
            number.is_zero(),
            !number.negative(),
    {
        Scalar { bits: 0 }
    }

    /// The number with the given bits.
    pub fn from_bits(bits: u32) -> (number: Self)
        ensures
            number.bits == bits,
    {
        Scalar { bits }
    }

    /// The bits of the number.
    pub fn to_bits(&self) -> (bits: u32)
        ensures
            bits == self.bits,
    {
        self.bits
    }

    /// Whether the bits encode no number.
    pub fn is_nan_value(&self) -> (nan: bool)
        ensures
            nan == self.is_nan(),
    {
        (self.bits / 0x80_0000) % 0x100 == 0xff && self.bits % 0x80_0000 != 0
    }

    /// Whether the number is positive or negative zero.
    pub fn is_zero_value(&self) -> (zero: bool)
        ensures
            zero == self.is_zero(),
    {
        (self.bits / 0x80_0000) % 0x100 == 0 && self.bits % 0x80_0000 == 0
    }

    /// Writes the number with exactly three decimals.
    pub fn fixed3(&self) -> (text: String)
        ensures
            text@ == self.fixed3_text(),
    {
        let exponent: u32 = (self.bits / 0x80_0000) % 0x100;
        let fraction: u32 = self.bits % 0x80_0000;
        if exponent == 0xff && fraction != 0 {
            proof {
                reveal_strlit("NaN");
            }
            return String::from_str("NaN");
        }
        let mut out = String::new();
        if self.bits >= 0x8000_0000 {
            proof {
                reveal_strlit("-");
            }
            out.append("-");
        }
        if exponent == 0xff {
            proof {
                reveal_strlit("inf");
            }
            out.append("inf");
            return out;
        }
        let significand: u128 = if exponent == 0 {
            fraction as u128
        } else {
            0x80_0000 + fraction as u128
        };
        let thousandths: u128 = if exponent >= 150 {
            let up: u32 = exponent - 150;
            let factor = power_of_two(up);
            proof {
                lemma_product_fits(significand as nat, up as nat);
            }
            let whole: u128 = significand * factor;
            proof {
                reveal_strlit(".000");
            }
            push_decimal(&mut out, whole);
            out.append(".000");
            return out;
        } else {
            let down: u32 = if exponent == 0 {
                149
            } else {
                150 - exponent
            };
            let scaled: u128 = significand * 1000;
            if down >= 64 {
                proof {
                    lemma_rounds_to_nothing(scaled as nat, down as nat);
                }
                0
            } else {
                let divisor = power_of_two(down);
                proof {
                    lemma_pow2_pos(down as nat);
                }
                let quotient: u128 = scaled / divisor;
                let remainder: u128 = scaled % divisor;
                proof {
                    lemma_pow2_strictly_increases(down as nat, 64);
                    lemma2_to64();
                }
                if 2 * remainder > divisor || (2 * remainder == divisor && quotient % 2 == 1) {
                    quotient + 1
                } else {
                    quotient
                }
            }
        };
        proof {
            reveal_strlit(".");
        }
        push_decimal(&mut out, thousandths / 1000);
        out.append(".");
        push_three_digits(&mut out, thousandths % 1000);
        out
    }
}

impl PartialEq for Scalar {
    /// Equality of the numbers, not of the bits.
    fn eq(&self, other: &Scalar) -> (equal: bool) {
        !self.is_nan_value() && !other.is_nan_value() && (self.bits == other.bits || (
        self.is_zero_value() && other.is_zero_value()))
    }
}

impl PartialEqSpecImpl for Scalar {
    open spec fn obeys_eq_spec() -> bool {
        true
    }

    open spec fn eq_spec(&self, other: &Scalar) -> bool {
        self.same_number(*other)
    }
}

/// Rounding goes to a nearest whole number: the result is no further than a
/// half from the quotient.
pub proof fn lemma_round_half_even_is_nearest(n: nat, d: nat)
    requires
        d > 0,
    ensures
        -(d as int) <= 2 * (round_half_even(n, d) * d - n) <= d,
{
    let q = n / d;
    let r = n % d;
    assert(n == d * q + r) by {
        lemma_fundamental_div_mod(n as int, d as int);
    }
    assert((q + 1) * d == q * d + d) by (nonlinear_arith);
}

/// Two to the power of `exponent`.
fn power_of_two(exponent: u32) -> (power: u128)
    requires
        exponent < 128,
    ensures
        power == pow2(exponent as nat),
{
    let mut power: u128 = 1;
    let mut done: u32 = 0;
    proof {
        lemma2_to64();
    }
    while done < exponent
        invariant
            done <= exponent,
            exponent < 128,
            power == pow2(done as nat),
        decreases exponent - done,
    {
        proof {
            lemma_pow2_unfold((done + 1) as nat);
            lemma_pow2_below_128((done + 1) as nat);
        }
        power = power * 2;
        done = done + 1;
    }
    power
}

/// A power of two with an exponent under 128 fits in 128 bits.
proof fn lemma_pow2_below_128(exponent: nat)
    requires
        exponent < 128,
    ensures
        pow2(exponent) <= 0x8000_0000_0000_0000_0000_0000_0000_0000,
{
    lemma2_to64();
    lemma_pow2_adds(64, 63);
    lemma_pow2_unfold(64);
    if exponent < 127 {
        lemma_pow2_strictly_increases(exponent, 127);
    }
}

/// A significand of at most twenty-four bits, raised by at most 104 binary
/// places, fits in 128 bits.
proof fn lemma_product_fits(significand: nat, up: nat)
    requires
        significand < 0x100_0000,
        up <= 104,
    ensures
        significand * pow2(up) < 0x1_0000_0000_0000_0000_0000_0000_0000_0000,
{
    lemma2_to64();
    lemma2_to64_rest();
    lemma_pow2_adds(64, 40);
    if up < 104 {
        lemma_pow2_strictly_increases(up, 104);
    }
    let bound = pow2(104);
    assert(significand * pow2(up) <= 0xff_ffff * bound) by (nonlinear_arith)
        requires
            significand <= 0xff_ffff,
            pow2(up) <= bound,
    ;
}

/// Under thirty-five bits divided by at least sixty-four binary places rounds
/// to nothing.
proof fn lemma_rounds_to_nothing(n: nat, down: nat)
    requires
        n < 0x4_0000_0000,
        down >= 64,
    ensures
        round_half_even(n, pow2(down)) == 0,
{
    lemma2_to64();
    if down > 64 {
        lemma_pow2_strictly_increases(64, down);
    }
    lemma_basic_div(n as int, pow2(down) as int);
    lemma_small_mod(n, pow2(down));
}

} // verus!
