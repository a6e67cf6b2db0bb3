//! Exact rational values. The streaming stages and the game events carry
//! measurements that are not whole numbers; a pair `num / den` with a positive
//! denominator keeps every comparison exact, where machine floating point
//! would only approximate it.

use vstd::prelude::*;

verus! {

/// The rational number `num / den`. Well-formed values keep `den >= 1`, so
/// the sign lives in `num` and every cross-multiplied comparison is exact.
#[derive(Debug, Clone, Copy, PartialEq, Eq, Structural)]
pub struct Ratio {
    pub num: i32,
    pub den: i32,
}

impl Ratio {
    pub open spec fn wf(self) -> bool {
        self.den >= 1
    }

    pub fn new(num: i32, den: i32) -> (r: Ratio)
        requires
            den >= 1,
        ensures
            r.wf(),
            r.num == num,
            r.den == den,
    {
        Ratio { num, den }
    }

    /// `num / den < k`, stated without division: `num < k * den` holds exactly
    /// when the ratio is below the whole number `k`, because `den >= 1`.
    pub open spec fn spec_lt_int(self, k: int) -> bool {
        self.num < k * self.den
    }

    /// Exact comparison of the ratio with a whole number.
    pub fn lt_int(&self, k: i32) -> (r: bool)
        requires
            self.wf(),
        ensures
            r == self.spec_lt_int(k as int),
    {
        proof {
            assert(i64::MIN <= k * self.den <= i64::MAX) by (nonlinear_arith)
                requires
                    i32::MIN <= k <= i32::MAX,
                    i32::MIN <= self.den <= i32::MAX,
            ;
        }
        (self.num as i64) < (k as i64) * (self.den as i64)
    }

    /// The ratio is strictly positive.
    pub open spec fn spec_positive(self) -> bool {
        self.wf() && self.num >= 1
    }
}

} // verus!
