//! Rotation speed of the anemometer and its derived units, in exact
//! arithmetic.

use vstd::prelude::*;

verus! {

/// Nanoseconds in a second.
pub const NANOS_PER_SEC: u64 = 1_000_000_000;

/// A non-negative fraction `num / den`. With `den == 0` it stands for no
/// finite number (a measurement over an empty time span).
#[derive(Clone, Copy, Debug, PartialEq, Eq, Structural)]
pub struct Ratio {
    pub num: u128,
    pub den: u128,
}

impl Ratio {
    /// Equality of the fractions' values: `self == other`, by cross
    /// multiplication.
    pub open spec fn same_value(self, other: Ratio) -> bool {
        self.num * other.den == other.num * self.den
    }

    /// `self == k * other / d` for whole numbers `k` and `d`.
    pub open spec fn is_scaled(self, other: Ratio, k: nat, d: nat) -> bool {
        self.num * other.den * d == k * other.num * self.den
    }
}

/// How fast the anemometer turns: `half_turns` half rotations counted
/// over `span_nanos` nanoseconds. No half turn at all is standstill.
#[derive(Clone, Copy, Debug, PartialEq, Eq, Structural)]
pub struct WindSpeed {
    pub half_turns: u8,
    pub span_nanos: u64,
}

impl WindSpeed {
    /// Rotations per second, as a fraction.
    pub open spec fn rounds(self) -> Ratio {
        Ratio { num: (self.half_turns * NANOS_PER_SEC) as u128, den: (2 * self.span_nanos) as u128 }
    }

    /// Kilometres per hour: sixteen for each rotation per second.
    pub open spec fn kmh(self) -> Ratio {
        Ratio { num: (self.rounds().num * 16) as u128, den: self.rounds().den }
    }

    /// Metres per second: kilometres per hour divided by 3.6.
    pub open spec fn mps(self) -> Ratio {
        Ratio { num: (self.rounds().num * 160) as u128, den: (self.rounds().den * 36) as u128 }
    }

    /// Whether the speed is standstill: no half turn over a time span
    /// that is not empty. No half turn over an empty span is no number.
    pub open spec fn still(self) -> bool {
        self.half_turns == 0 && self.span_nanos > 0
    }

    /// The speed of `half_turns` half rotations in `span_nanos` nanoseconds.
    pub fn new(half_turns: u8, span_nanos: u64) -> (speed: WindSpeed)
        ensures
            speed == (WindSpeed { half_turns, span_nanos }),
    {
        WindSpeed { half_turns, span_nanos }
    }

    /// Standstill: nothing counted in one second.
    pub fn zero() -> (speed: WindSpeed)
        ensures
            speed == (WindSpeed { half_turns: 0, span_nanos: NANOS_PER_SEC }),
            speed.still(),
            speed.rounds().num == 0,
            speed.rounds().den > 0,
    {
        WindSpeed { half_turns: 0, span_nanos: NANOS_PER_SEC }
    }

    /// Whether the speed is standstill.
    pub fn is_zero(&self) -> (still: bool)
        ensures
            still == self.still(),
            still <==> self.rounds().num == 0 && self.rounds().den > 0,
    {
        self.half_turns == 0 && self.span_nanos > 0
    }

    /// Rotations per second.
    pub fn round_per_sec(&self) -> (ratio: Ratio)
        ensures
            ratio == self.rounds(),
            ratio.num == self.half_turns * NANOS_PER_SEC,
            ratio.den == 2 * self.span_nanos,
    {
        let half_turns: u128 = self.half_turns as u128;
        let span: u128 = self.span_nanos as u128;
        Ratio { num: half_turns * (NANOS_PER_SEC as u128), den: 2 * span }
    }

    /// Kilometres per hour.
    pub fn km_per_hour(&self) -> (ratio: Ratio)
        ensures
            ratio == self.kmh(),
            ratio.is_scaled(self.rounds(), 16, 1),
    {
        let rounds = self.round_per_sec();
        let ratio = Ratio { num: rounds.num * 16, den: rounds.den };
        proof {
            assert(ratio.num * rounds.den * 1 == 16 * rounds.num * ratio.den) by (nonlinear_arith)
                requires
                    ratio.num == rounds.num * 16,
                    ratio.den == rounds.den,
            ;
        }
        ratio
    }

    /// Metres per second.
    pub fn meters_per_sec(&self) -> (ratio: Ratio)
        ensures
            ratio == self.mps(),
            ratio.is_scaled(self.rounds(), 160, 36),
    {
        let rounds = self.round_per_sec();
        let ratio = Ratio { num: rounds.num * 160, den: rounds.den * 36 };
        proof {
            assert(ratio.num * rounds.den * 36 == 160 * rounds.num * ratio.den) by (nonlinear_arith)
                requires
                    ratio.num == rounds.num * 160,
                    ratio.den == rounds.den * 36,
            ;
        }
        ratio
    }
}

/// Unit conversion: kilometres per hour are sixteen times the rotations
/// per second, and metres per second are that divided by 3.6
/// (times 160, divided by 36).
pub proof fn conversions_scale_rounds(speed: WindSpeed)
    ensures
        speed.kmh().is_scaled(speed.rounds(), 16, 1),
        speed.mps().is_scaled(speed.rounds(), 160, 36),
        speed.mps().is_scaled(speed.kmh(), 10, 36),
{
    let r = speed.rounds();
    let k = speed.kmh();
    let m = speed.mps();
    assert(r.num * 160 <= u128::MAX && r.den * 36 <= u128::MAX);
    assert(k.num * r.den * 1 == 16 * r.num * k.den) by (nonlinear_arith)
        requires
            k.num == r.num * 16,
            k.den == r.den,
    ;
    assert(m.num * r.den * 36 == 160 * r.num * m.den) by (nonlinear_arith)
        requires
            m.num == r.num * 160,
            m.den == r.den * 36,
    ;
    assert(m.num * k.den * 36 == 10 * k.num * m.den) by (nonlinear_arith)
        requires
            m.num == r.num * 160,
            m.den == r.den * 36,
            k.num == r.num * 16,
            k.den == r.den,
    ;
}

} // verus!
