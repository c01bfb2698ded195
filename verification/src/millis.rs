//! Milliseconds measured in floating point, by the bits of the measurement.

use vstd::arithmetic::power2::{
    lemma2_to64, lemma2_to64_rest, lemma_pow2_adds, lemma_pow2_pos, lemma_pow2_strictly_increases,
    lemma_pow2_unfold, pow2,
};
use vstd::prelude::*;

verus! {

/// How many doubles share a sign and an exponent: 2^52.
pub const FRACTION_RANGE: u64 = 0x10_0000_0000_0000;

/// The exponent field of infinities and of what is not a number.
pub const SPECIAL_EXPONENT: u64 = 2047;

/// How many doubles share a sign: 2^63.
pub const SIGN_RANGE: u64 = 0x8000_0000_0000_0000;

/// The bits of 50, as an IEEE 754 double.
pub const FIFTY: u64 = 0x4049_0000_0000_0000;

/// The bits of 200, as an IEEE 754 double.
pub const TWO_HUNDRED: u64 = 0x4069_0000_0000_0000;

/// A count of milliseconds as an IEEE 754 double, given by its bits.
#[derive(Debug, Copy, Clone, PartialEq, Eq, Structural)]
pub struct Millis {
    pub bits: u64,
}

impl Millis {
    pub open spec fn exponent(self) -> nat {
        (self.bits % SIGN_RANGE / FRACTION_RANGE) as nat
    }

    pub open spec fn fraction(self) -> nat {
        (self.bits % FRACTION_RANGE) as nat
    }

    /// Whether the measurement is a finite number.
    pub open spec fn finite(self) -> bool {
        self.exponent() != SPECIAL_EXPONENT
    }

    /// Whether the measurement is infinite.
    pub open spec fn infinite(self) -> bool {
        self.exponent() == SPECIAL_EXPONENT && self.fraction() == 0
    }

    /// Whether the measurement is no number at all.
    pub open spec fn not_a_number(self) -> bool {
        self.exponent() == SPECIAL_EXPONENT && self.fraction() != 0
    }

    /// Whether the measurement is no larger than `other`, both without their signs.
    pub open spec fn at_most(self, other: Millis) -> bool {
        if other.infinite() {
            !self.not_a_number()
        } else {
            self.finite() && other.finite() && self.magnitude() <= other.magnitude()
        }
    }

    /// The size of a finite measurement, without its sign, in units of 2^-1075: the fraction
    /// has 52 binary places and the exponent is biased by 1023; a zero exponent stands for one
    /// without the leading digit of the significand.
    pub open spec fn magnitude(self) -> nat {
        if self.exponent() == 0 {
            self.fraction() * pow2(1)
        } else {
            (FRACTION_RANGE + self.fraction()) as nat * pow2(self.exponent())
        }
    }

    /// Whether the measurement is a number that lies less than `limit` from zero.
    pub open spec fn within(self, limit: nat) -> bool {
        self.finite() && self.magnitude() < limit * pow2(1075)
    }

    /// How good a clock is that is off by this much.
    pub open spec fn spec_status(self) -> SyncStatus {
        if self.within(50) {
            SyncStatus::Excellent
        } else if self.within(200) {
            SyncStatus::Fair
        } else {
            SyncStatus::NeedsCalibration
        }
    }

    /// How good a clock is that is off by this much.
    #[verifier::when_used_as_spec(spec_status)]
    pub fn status(self) -> (status: SyncStatus)
        ensures
            status == self.spec_status(),
    {
        let size: u64 = self.bits % SIGN_RANGE;
        proof {
            lemma_fifty();
            lemma_two_hundred();
            lemma_below(self, Millis { bits: FIFTY });
            lemma_below(self, Millis { bits: TWO_HUNDRED });
        }
        if size < FIFTY {
            SyncStatus::Excellent
        } else if size < TWO_HUNDRED {
            SyncStatus::Fair
        } else {
            SyncStatus::NeedsCalibration
        }
    }
}

/// How well a clock keeps time.
#[derive(Debug, Copy, Clone, PartialEq, Eq, Structural)]
pub enum SyncStatus {
    /// Off by less than 50 ms.
    Excellent,
    /// Off by less than 200 ms.
    Fair,
    NeedsCalibration,
}

/// Without their signs, finite measurements are ordered as their bits are.
pub proof fn law_bits_order_magnitudes(a: Millis, b: Millis)
    requires
        a.bits % SIGN_RANGE < b.bits % SIGN_RANGE,
        b.finite(),
    ensures
        a.finite(),
        a.magnitude() < b.magnitude(),
{
    let m = FRACTION_RANGE as int;
    let x = a.bits % SIGN_RANGE;
    let y = b.bits % SIGN_RANGE;
    assert(a.fraction() == x % FRACTION_RANGE);
    assert(b.fraction() == y % FRACTION_RANGE);
    let (ea, eb) = (a.exponent(), b.exponent());
    let (fa, fb) = (a.fraction() as int, b.fraction() as int);
    assert(x == m * ea + fa);
    assert(y == m * eb + fb);
    lemma_pow2_pos(ea);
    lemma_pow2_pos(eb);
    lemma_pow2_unfold(1);
    lemma2_to64();
    if ea == eb {
        let p = if ea == 0 {
            pow2(1) as int
        } else {
            pow2(ea) as int
        };
        assert(fa < fb);
        assert(fa * p < fb * p) by (nonlinear_arith)
            requires
                fa < fb,
                p > 0,
        ;
        assert((m + fa) * p < (m + fb) * p) by (nonlinear_arith)
            requires
                fa < fb,
                p > 0,
        ;
    } else {
        assert(ea < eb);
        let q = pow2(eb) as int;
        assert(m * q <= (m + fb) * q) by (nonlinear_arith)
            requires
                fb >= 0,
                q > 0,
        ;
        if ea == 0 {
            if eb > 1 {
                lemma_pow2_strictly_increases(1, eb);
            }
            assert(fa * 2 < m * q) by (nonlinear_arith)
                requires
                    0 <= fa < m,
                    q >= 2,
            ;
        } else {
            let p = pow2(ea) as int;
            lemma_pow2_unfold(ea + 1);
            if eb > ea + 1 {
                lemma_pow2_strictly_increases(ea + 1, eb);
            }
            assert((m + fa) * p < m * q) by (nonlinear_arith)
                requires
                    0 <= fa < m,
                    p > 0,
                    q >= 2 * p,
            ;
        }
    }
}

/// A measurement lies below a finite limit exactly when its bits do, without the sign.
proof fn lemma_below(a: Millis, limit: Millis)
    requires
        limit.finite(),
    ensures
        a.bits % SIGN_RANGE < limit.bits % SIGN_RANGE <==> a.finite() && a.magnitude()
            < limit.magnitude(),
{
    let x = a.bits % SIGN_RANGE;
    let y = limit.bits % SIGN_RANGE;
    if x < y {
        law_bits_order_magnitudes(a, limit);
    } else if a.finite() {
        if y < x {
            law_bits_order_magnitudes(limit, a);
        } else {
            assert(a.fraction() == x % FRACTION_RANGE);
            assert(limit.fraction() == y % FRACTION_RANGE);
        }
    }
}

proof fn lemma_fifty()
    ensures
        FIFTY % SIGN_RANGE == FIFTY,
        (Millis { bits: FIFTY }).finite(),
        (Millis { bits: FIFTY }).magnitude() == 50 * pow2(1075),
{
    let v = Millis { bits: FIFTY };
    assert(v.exponent() == 1028);
    assert(v.fraction() == 0x9_0000_0000_0000);
    lemma_pow2_adds(1028, 47);
    lemma2_to64_rest();
    let p = pow2(1028) as int;
    assert(0x19_0000_0000_0000 * p == 50 * (p * 0x8000_0000_0000)) by (nonlinear_arith);
}

proof fn lemma_two_hundred()
    ensures
        TWO_HUNDRED % SIGN_RANGE == TWO_HUNDRED,
        (Millis { bits: TWO_HUNDRED }).finite(),
        (Millis { bits: TWO_HUNDRED }).magnitude() == 200 * pow2(1075),
{
    let v = Millis { bits: TWO_HUNDRED };
    assert(v.exponent() == 1030);
    assert(v.fraction() == 0x9_0000_0000_0000);
    lemma_pow2_adds(1030, 45);
    lemma2_to64_rest();
    let p = pow2(1030) as int;
    assert(0x19_0000_0000_0000 * p == 200 * (p * 0x2000_0000_0000)) by (nonlinear_arith);
}

/// The sign of an offset does not matter: a clock that is ahead is as good as one that is as far
/// behind.
pub proof fn law_status_ignores_the_sign(a: Millis, b: Millis)
    requires
        a.bits % SIGN_RANGE == b.bits % SIGN_RANGE,
    ensures
        a.status() == b.status(),
{
    assert(a.fraction() == (a.bits % SIGN_RANGE) % FRACTION_RANGE);
    assert(b.fraction() == (b.bits % SIGN_RANGE) % FRACTION_RANGE);
}

/// A clock that is off by more is no better, infinitely far included; one whose offset is no
/// finite number needs calibration.
pub proof fn law_status_worsens(a: Millis, b: Millis)
    requires
        a.at_most(b),
    ensures
        b.status() is Excellent ==> a.status() is Excellent,
        b.status() is Fair ==> !(a.status() is NeedsCalibration),
        !a.finite() ==> a.status() is NeedsCalibration,
        !b.finite() ==> b.status() is NeedsCalibration,
{
}

/// A clock is excellent exactly when it is off by less than 50 ms, fair exactly when it is off by
/// less than 200 ms but not by less than 50 ms, and needs calibration otherwise.
pub proof fn law_status_limits(offset: Millis)
    ensures
        offset.status() is Excellent <==> offset.within(50),
        offset.status() is Fair <==> offset.within(200) && !offset.within(50),
        offset.status() is NeedsCalibration <==> !offset.within(200),
        offset.within(50) ==> offset.within(200),
{
    lemma_pow2_pos(1075);
}

/// The limits lie at the doubles 50 and 200: without its sign, an offset is rated by whether its
/// bits come before theirs.
pub proof fn law_limits_in_bits(offset: Millis)
    ensures
        offset.within(50) <==> offset.bits % 0x8000_0000_0000_0000 < 0x4049_0000_0000_0000,
        offset.within(200) <==> offset.bits % 0x8000_0000_0000_0000 < 0x4069_0000_0000_0000,
        offset.status() is Excellent <==> offset.bits % 0x8000_0000_0000_0000
            < 0x4049_0000_0000_0000,
        offset.status() is NeedsCalibration <==> offset.bits % 0x8000_0000_0000_0000
            >= 0x4069_0000_0000_0000,
{
    lemma_fifty();
    lemma_two_hundred();
    lemma_below(offset, Millis { bits: FIFTY });
    lemma_below(offset, Millis { bits: TWO_HUNDRED });
    law_status_limits(offset);
}

/// A whole number of milliseconds lies within a limit exactly when it is smaller: a measurement
/// that is worth `n` ms has the size of `n`.
pub proof fn law_within_compares_numbers(offset: Millis, n: nat, limit: nat)
    requires
        offset.finite(),
        offset.magnitude() == n * pow2(1075),
    ensures
        offset.within(limit) <==> n < limit,
{
    lemma_pow2_pos(1075);
    let p = pow2(1075) as int;
    if n < limit {
        assert(n * p < limit * p) by (nonlinear_arith)
            requires
                n < limit,
                p > 0,
        ;
    } else {
        assert(n * p >= limit * p) by (nonlinear_arith)
            requires
                n >= limit,
                p > 0,
        ;
    }
}

} // verus!
