use vstd::prelude::*;

use crate::geometry::PixelUnit;

verus! {

/// Numerator of the largest error (exclusive) at which a match is accepted.
pub const THRESHOLD_NUMERATOR: u64 = 1;

/// Denominator of the largest error (exclusive) at which a match is accepted:
/// the threshold is one twentieth, that is 5%.
pub const THRESHOLD_DENOMINATOR: u64 = 20;

/// How far an observed image size is from an expected one, as the exact
/// fraction `numerator / denominator`. A zero denominator stands for an error
/// that is not a number: it is neither smaller nor larger than any other
/// error, and never within the threshold.
#[derive(Clone, Copy, Debug, PartialEq, Eq)]
pub struct ErrorRatio {
    pub numerator: u64,
    pub denominator: u64,
}

impl ErrorRatio {
    /// The error is a number.
    pub open spec fn is_defined(self) -> bool {
        self.denominator > 0
    }

    /// Both errors are numbers and `self` is strictly the smaller one.
    pub open spec fn spec_less_than(self, other: ErrorRatio) -> bool {
        &&& self.is_defined()
        &&& other.is_defined()
        &&& self.numerator * other.denominator < other.numerator * self.denominator
    }

    /// The error is a number strictly below the acceptance threshold.
    pub open spec fn spec_within_threshold(self) -> bool {
        &&& self.is_defined()
        &&& self.numerator * THRESHOLD_DENOMINATOR < THRESHOLD_NUMERATOR * self.denominator
    }

    /// Strictly smaller is transitive.
    pub proof fn lemma_less_than_transitive(a: ErrorRatio, b: ErrorRatio, c: ErrorRatio)
        requires
            a.spec_less_than(b),
            b.spec_less_than(c),
        ensures
            a.spec_less_than(c),
    {
        let (an, ad) = (a.numerator as int, a.denominator as int);
        let (bn, bd) = (b.numerator as int, b.denominator as int);
        let (cn, cd) = (c.numerator as int, c.denominator as int);
        assert(an * bd * cd < bn * ad * cd) by (nonlinear_arith)
            requires
                an * bd < bn * ad,
                cd > 0,
        ;
        assert(bn * cd * ad < cn * bd * ad) by (nonlinear_arith)
            requires
                bn * cd < cn * bd,
                ad > 0,
        ;
        assert(an * cd < cn * ad) by (nonlinear_arith)
            requires
                an * bd * cd < bn * ad * cd,
                bn * cd * ad < cn * bd * ad,
                bd > 0,
        ;
    }

    pub fn is_less_than(&self, other: &ErrorRatio) -> (r: bool)
        ensures
            r == self.spec_less_than(*other),
    {
        if self.denominator == 0 || other.denominator == 0 {
            return false;
        }
        proof {
            lemma_product_below(
                self.numerator as int, other.denominator as int,
                0x1_0000_0000_0000_0000,
            );
            lemma_product_below(
                other.numerator as int, self.denominator as int,
                0x1_0000_0000_0000_0000,
            );
        }
        (self.numerator as u128) * (other.denominator as u128)
            < (other.numerator as u128) * (self.denominator as u128)
    }

    pub fn is_within_threshold(&self) -> (r: bool)
        ensures
            r == self.spec_within_threshold(),
    {
        if self.denominator == 0 {
            return false;
        }
        proof {
            lemma_product_below(
                self.numerator as int, THRESHOLD_DENOMINATOR as int,
                0x1_0000_0000_0000_0000,
            );
            lemma_product_below(
                THRESHOLD_NUMERATOR as int, self.denominator as int,
                0x1_0000_0000_0000_0000,
            );
        }
        (self.numerator as u128) * (THRESHOLD_DENOMINATOR as u128) < (THRESHOLD_NUMERATOR as u128)
            * (self.denominator as u128)
    }
}

/// How an image of one size is brought to another before the two are compared.
#[derive(Clone, Copy, Debug, PartialEq, Eq)]
pub enum ResizeStrategy {
    /// Scale the image, keeping its aspect ratio, so that it fits the expected
    /// size: the error is the difference between the two aspect ratios.
    Fit,
}

/// A product of two factors below `bound` is below `bound * bound`.
proof fn lemma_product_below(a: int, b: int, bound: int)
    requires
        0 <= a < bound,
        0 <= b < bound,
    ensures
        0 <= a * b < bound * bound,
{
    assert(0 <= a * b < bound * bound) by (nonlinear_arith)
        requires
            0 <= a < bound,
            0 <= b < bound,
    ;
}

/// The absolute difference of two integers.
pub open spec fn abs_diff(a: int, b: int) -> int {
    if a >= b {
        a - b
    } else {
        b - a
    }
}

impl ResizeStrategy {
    /// The error of an image of size `actual` against an expected size
    /// `expected`, both given as (width, height).
    pub open spec fn spec_error(self, expected: (PixelUnit, PixelUnit), actual: (
        PixelUnit,
        PixelUnit,
    )) -> ErrorRatio {
        match self {
            ResizeStrategy::Fit => {
                let (ew, eh) = expected;
                let (aw, ah) = actual;
                if eh == 0 || ah == 0 {
                    ErrorRatio { numerator: 0, denominator: 0 }
                } else {
                    // |ew / eh - aw / ah| = |ew * ah - aw * eh| / (eh * ah)
                    ErrorRatio {
                        numerator: abs_diff(ew * ah, aw * eh) as u64,
                        denominator: (eh * ah) as u64,
                    }
                }
            },
        }
    }

    pub fn compute_error(self, expected: (PixelUnit, PixelUnit), actual: (PixelUnit, PixelUnit)) -> (r:
        ErrorRatio)
        ensures
            r == self.spec_error(expected, actual),
            r.is_defined() <==> expected.1 > 0 && actual.1 > 0,
    {
        match self {
            ResizeStrategy::Fit => {
                let (ew, eh) = expected;
                let (aw, ah) = actual;
                if eh == 0 || ah == 0 {
                    return ErrorRatio { numerator: 0, denominator: 0 };
                }
                proof {
                    lemma_product_below(ew as int, ah as int, 0x1_0000_0000);
                    lemma_product_below(aw as int, eh as int, 0x1_0000_0000);
                    lemma_product_below(eh as int, ah as int, 0x1_0000_0000);
                }
                let lhs: u64 = (ew as u64) * (ah as u64);
                let rhs: u64 = (aw as u64) * (eh as u64);
                let numerator: u64 = if lhs >= rhs {
                    lhs - rhs
                } else {
                    rhs - lhs
                };
                proof {
                    assert((eh as int) * (ah as int) > 0) by (nonlinear_arith)
                        requires
                            eh > 0,
                            ah > 0,
                    ;
                }
                ErrorRatio { numerator, denominator: (eh as u64) * (ah as u64) }
            },
        }
    }
}

} // verus!
