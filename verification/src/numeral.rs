//! Numbers as they are spoken: rounded to zero decimal places and
//! written in decimal digits.

use vstd::prelude::*;
use vstd::string::*;
use vstd::arithmetic::power2::{
    lemma2_to64, lemma2_to64_rest, lemma_pow2_adds, lemma_pow2_strictly_increases,
    lemma_pow2_unfold, pow2,
};
use crate::speed::Ratio;

verus! {

/// The decimal digit `d` as text.
pub open spec fn digit_text(d: nat) -> Seq<char> {
    if d == 0 {
        "0"@
    } else if d == 1 {
        "1"@
    } else if d == 2 {
        "2"@
    } else if d == 3 {
        "3"@
    } else if d == 4 {
        "4"@
    } else if d == 5 {
        "5"@
    } else if d == 6 {
        "6"@
    } else if d == 7 {
        "7"@
    } else if d == 8 {
        "8"@
    } else {
        "9"@
    }
}

/// The number `n` in decimal digits, without leading zeros.
pub open spec fn decimal_text(n: nat) -> Seq<char>
    decreases n,
{
    if n < 10 {
        digit_text(n)
    } else {
        decimal_text(n / 10) + digit_text(n % 10)
    }
}

/// The whole number nearest to `num / den`; a value halfway between two
/// whole numbers goes to the even one.
pub open spec fn nearest_even(num: nat, den: nat) -> nat
    recommends
        den > 0,
{
    let whole = num / den;
    let rest = num % den;
    if 2 * rest > den || (2 * rest == den && whole % 2 == 1) {
        whole + 1
    } else {
        whole
    }
}

/// The whole number nearest to a fraction, halves to the even one.
pub open spec fn rounded(ratio: Ratio) -> nat
    recommends
        ratio.den > 0,
{
    nearest_even(ratio.num as nat, ratio.den as nat)
}

/// A fraction rounded to zero decimal places, as text. A fraction with
/// denominator zero is no finite number and reads `inf`, or `NaN` where
/// the numerator is zero too.
pub open spec fn rounded_text(ratio: Ratio) -> Seq<char> {
    if ratio.den == 0 {
        if ratio.num == 0 {
            "NaN"@
        } else {
            "inf"@
        }
    } else {
        decimal_text(rounded(ratio))
    }
}

/// The decimal digit `d` as text.
fn digit(d: u128) -> (text: &'static str)
    requires
        d < 10,
    ensures
        text@ == digit_text(d as nat),
{
    if d == 0 {
        "0"
    } else if d == 1 {
        "1"
    } else if d == 2 {
        "2"
    } else if d == 3 {
        "3"
    } else if d == 4 {
        "4"
    } else if d == 5 {
        "5"
    } else if d == 6 {
        "6"
    } else if d == 7 {
        "7"
    } else if d == 8 {
        "8"
    } else {
        "9"
    }
}

/// Writes `n` in decimal digits, without leading zeros.
pub fn decimal(n: u128) -> (text: String)
    ensures
        text@ == decimal_text(n as nat),
    decreases n,
{
    if n < 10 {
        String::from_str(digit(n))
    } else {
        let mut text = decimal(n / 10);
        text.append(digit(n % 10));
        text
    }
}

/// Rounds a fraction to the nearest whole number, halves to the even one.
pub fn round(ratio: Ratio) -> (whole: u128)
    requires
        ratio.den > 0,
    ensures
        whole == rounded(ratio),
{
    let whole: u128 = ratio.num / ratio.den;
    let rest: u128 = ratio.num % ratio.den;
    let up: bool = rest > ratio.den - rest || (rest == ratio.den - rest && whole % 2 == 1);
    if up {
        proof {
            assert(rest > 0);
            assert(ratio.num == ratio.den * whole + rest) by (nonlinear_arith)
                requires
                    whole == ratio.num / ratio.den,
                    rest == ratio.num % ratio.den,
                    ratio.den > 0,
            ;
            assert(whole < u128::MAX) by (nonlinear_arith)
                requires
                    ratio.num == ratio.den * whole + rest,
                    rest > 0,
                    ratio.den > 0,
                    ratio.num <= u128::MAX,
            ;
        }
        whole + 1
    } else {
        whole
    }
}

/// Writes a fraction rounded to zero decimal places.
pub fn round_to_text(ratio: Ratio) -> (text: String)
    ensures
        text@ == rounded_text(ratio),
{
    if ratio.den == 0 {
        if ratio.num == 0 {
            String::from_str("NaN")
        } else {
            String::from_str("inf")
        }
    } else {
        decimal(round(ratio))
    }
}


/// Powers of two up to the hundred-and-fourth are at most
/// `0x1_00000000_00000000_00000000_00`, and so fit in 128 bits with
/// twenty-four bits to spare.
proof fn lemma_pow2_up_to_104(k: nat)
    requires
        k <= 104,
    ensures
        1 <= pow2(k) <= 0x100000000000000000000000000,
{
    lemma_pow2_adds(64, 40);
    lemma2_to64();
    lemma2_to64_rest();
    assert(pow2(104) == 0x10000000000000000 * 0x10000000000);
    if k < 104 {
        lemma_pow2_strictly_increases(k, 104);
    }
    if k > 0 {
        lemma_pow2_strictly_increases(0, k);
    }
}

/// Two to the power `k`.
fn power_of_two(k: u32) -> (power: u128)
    requires
        k <= 104,
    ensures
        power == pow2(k as nat),
        1 <= power <= 0x100000000000000000000000000,
{
    let mut power: u128 = 1;
    let mut i: u32 = 0;
    proof {
        lemma2_to64();
        lemma_pow2_up_to_104(k as nat);
    }
    while i < k
        invariant
            i <= k <= 104,
            power == pow2(i as nat),
            pow2(k as nat) <= 0x100000000000000000000000000,
        decreases k - i,
    {
        proof {
            lemma_pow2_unfold((i + 1) as nat);
            if i + 1 < k {
                lemma_pow2_strictly_increases((i + 1) as nat, k as nat);
            }
        }
        power = power * 2;
        i += 1;
    }
    power
}

/// A single-precision binary floating-point number, held by its 32 bits:
/// one sign bit, eight exponent bits, twenty-three fraction bits.
#[derive(Clone, Copy, Debug, PartialEq, Eq, Structural)]
pub struct Single {
    pub bits: u32,
}

impl Single {
    /// Whether the sign bit is set.
    pub open spec fn negative(self) -> bool {
        self.bits >= 0x8000_0000
    }

    /// The eight exponent bits.
    pub open spec fn exponent(self) -> nat {
        (self.bits as nat / 0x80_0000) % 256
    }

    /// The twenty-three fraction bits.
    pub open spec fn fraction(self) -> nat {
        self.bits as nat % 0x80_0000
    }

    /// Whether the bits hold no number.
    pub open spec fn is_nan(self) -> bool {
        self.exponent() == 255 && self.fraction() != 0
    }

    /// Whether the bits hold an infinity.
    pub open spec fn is_infinite(self) -> bool {
        self.exponent() == 255 && self.fraction() == 0
    }

    /// The significand: the fraction bits, with the implicit leading bit
    /// unless the exponent bits are all zero.
    pub open spec fn significand(self) -> nat {
        if self.exponent() == 0 {
            self.fraction()
        } else {
            0x80_0000 + self.fraction()
        }
    }

    /// The power of two that scales the significand: the magnitude of a
    /// finite number is `significand * 2^scale`.
    pub open spec fn scale(self) -> int {
        if self.exponent() == 0 {
            -149
        } else {
            self.exponent() - 150
        }
    }

    /// The magnitude of a finite number, rounded to the nearest whole
    /// number, halves to the even one.
    pub open spec fn rounded(self) -> nat {
        if self.scale() >= 0 {
            self.significand() * pow2(self.scale() as nat)
        } else {
            nearest_even(self.significand(), pow2((-self.scale()) as nat))
        }
    }

    /// The number rounded to zero decimal places, as text: `NaN` for no
    /// number, `inf` for an infinity, else the digits of the rounded
    /// magnitude; a minus sign in front wherever the sign bit is set,
    /// but for `NaN`.
    pub open spec fn text(self) -> Seq<char> {
        if self.is_nan() {
            "NaN"@
        } else if self.is_infinite() {
            if self.negative() {
                "-inf"@
            } else {
                "inf"@
            }
        } else if self.negative() {
            "-"@ + decimal_text(self.rounded())
        } else {
            decimal_text(self.rounded())
        }
    }

    /// The number with the given bits.
    pub fn from_bits(bits: u32) -> (number: Single)
        ensures
            number.bits == bits,
    {
        Single { bits }
    }

    /// Whether the bits hold a finite number.
    pub fn is_finite(&self) -> (finite: bool)
        ensures
            finite == (!self.is_nan() && !self.is_infinite()),
    {
        (self.bits / 0x80_0000) % 256 != 255
    }

    /// The magnitude of a finite number rounded to the nearest whole
    /// number, halves to the even one; `None` for an infinity and for no
    /// number.
    pub fn round(&self) -> (whole: Option<u128>)
        ensures
            whole is None <==> self.is_nan() || self.is_infinite(),
            whole matches Some(magnitude) ==> magnitude == self.rounded(),
    {
        if self.is_finite() {
            Some(self.round_finite())
        } else {
            None
        }
    }

    /// The magnitude of a finite number rounded to the nearest whole
    /// number, halves to the even one.
    fn round_finite(&self) -> (whole: u128)
        requires
            !self.is_nan(),
            !self.is_infinite(),
        ensures
            whole == self.rounded(),
    {
        let exponent: u32 = (self.bits / 0x80_0000) % 256;
        let fraction: u32 = self.bits % 0x80_0000;
        let significand: u128 = if exponent == 0 {
            fraction as u128
        } else {
            0x80_0000 + fraction as u128
        };
        if exponent >= 150 {
            let power = power_of_two(exponent - 150);
            proof {
                assert(significand * power <= 0xFF_FFFF * 0x100000000000000000000000000)
                    by (nonlinear_arith)
                    requires
                        significand <= 0xFF_FFFF,
                        power <= 0x100000000000000000000000000,
                ;
            }
            significand * power
        } else {
            let shift: u32 = if exponent == 0 {
                149
            } else {
                150 - exponent
            };
            if shift >= 25 {
                proof {
                    let den = pow2(shift as nat);
                    lemma2_to64();
                    if shift > 25 {
                        lemma_pow2_strictly_increases(25, shift as nat);
                    }
                    assert(den >= 0x200_0000);
                    assert(significand < 0x100_0000);
                    assert(significand as nat / den == 0 && significand as nat % den
                        == significand) by (nonlinear_arith)
                        requires
                            significand < den,
                            den > 0,
                    ;
                }
                0
            } else {
                let den = power_of_two(shift);
                round(Ratio { num: significand, den })
            }
        }
    }

    /// Writes the number rounded to zero decimal places.
    pub fn round_to_text(&self) -> (text: String)
        ensures
            text@ == self.text(),
    {
        let negative: bool = self.bits >= 0x8000_0000;
        let exponent: u32 = (self.bits / 0x80_0000) % 256;
        let fraction: u32 = self.bits % 0x80_0000;
        if exponent == 255 {
            if fraction != 0 {
                String::from_str("NaN")
            } else if negative {
                String::from_str("-inf")
            } else {
                String::from_str("inf")
            }
        } else {
            let digits = decimal(self.round_finite());
            if negative {
                let mut text = String::from_str("-");
                text.append(digits.as_str());
                text
            } else {
                digits
            }
        }
    }
}

} // verus!
