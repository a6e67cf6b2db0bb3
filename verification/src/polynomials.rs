//! Polynomials with the shape law "degree `N` means exactly `N + 1`
//! coefficients" carried as a verified invariant, and multiplication whose
//! result degree is the sum of the factors' degrees.

use vstd::prelude::*;

verus! {

/// Coefficient `k` of the product of `a` and `b`, restricted to the terms
/// contributed by the first `upto` coefficients of `a`:
/// the partial sum of `a[i] * b[k - i]`.
pub open spec fn conv_partial(a: Seq<i64>, b: Seq<i64>, k: int, upto: int) -> int
    decreases upto,
{
    if upto <= 0 {
        0
    } else {
        conv_partial(a, b, k, upto - 1) + (if 0 <= k - (upto - 1) < b.len() {
            a[upto - 1] * b[k - (upto - 1)]
        } else {
            0
        })
    }
}

/// Coefficient `k` of the product of `a` and `b`.
pub open spec fn conv_coefficient(a: Seq<i64>, b: Seq<i64>, k: int) -> int {
    conv_partial(a, b, k, a.len() as int)
}

/// Multiplying `a` and `b` stays within `i64`: every coefficient-by-
/// coefficient product fits, and so does every partial sum the convolution
/// loop builds.
pub open spec fn convolution_fits(a: Seq<i64>, b: Seq<i64>) -> bool {
    &&& forall|i: int, j: int|
        0 <= i < a.len() && 0 <= j < b.len() ==> i64::MIN <= #[trigger] (a[i] * b[j]) <= i64::MAX
    &&& forall|k: int, upto: int|
        0 <= k < a.len() + b.len() - 1 && 0 <= upto <= a.len() ==> i64::MIN <= #[trigger] conv_partial(
            a,
            b,
            k,
            upto,
        ) <= i64::MAX
}

/// A polynomial of degree `coefficients.len() - 1`, constant term first.
pub struct Polynomial {
    coefficients: Vec<i64>,
}

impl Polynomial {
    pub closed spec fn view_coefficients(self) -> Seq<i64> {
        self.coefficients@
    }

    /// A polynomial of degree `n` holds exactly `n + 1` coefficients, so the
    /// list is never empty.
    pub open spec fn wf(self) -> bool {
        self.view_coefficients().len() >= 1
    }

    /// The zero polynomial of the given degree: `degree + 1` zero
    /// coefficients.
    pub fn zero(degree: usize) -> (r: Polynomial)
        requires
            degree < usize::MAX,
        ensures
            r.wf(),
            r.view_coefficients().len() == degree + 1,
            forall|i: int| 0 <= i <= degree ==> r.view_coefficients()[i] == 0,
    {
        let mut coefficients: Vec<i64> = Vec::new();
        let mut i: usize = 0;
        while i < degree + 1
            invariant
                degree < usize::MAX,
                i <= degree + 1,
                coefficients@.len() == i,
                forall|j: int| 0 <= j < i ==> coefficients@[j] == 0,
            decreases degree + 1 - i,
        {
            coefficients.push(0);
            i = i + 1;
        }
        Polynomial { coefficients }
    }

    /// A polynomial from its coefficients, constant term first; at least one
    /// coefficient is required.
    pub fn from_coefficients(coefficients: Vec<i64>) -> (r: Polynomial)
        requires
            coefficients@.len() >= 1,
        ensures
            r.wf(),
            r.view_coefficients() == coefficients@,
    {
        Polynomial { coefficients }
    }

    /// The polynomial's degree.
    pub fn degree(&self) -> (d: usize)
        requires
            self.wf(),
        ensures
            d == self.view_coefficients().len() - 1,
    {
        self.coefficients.len() - 1
    }

    /// Read access to the coefficients, constant term first.
    pub fn coefficients(&self) -> (r: &Vec<i64>)
        ensures
            r@ == self.view_coefficients(),
    {
        &self.coefficients
    }

    /// How many coefficients the polynomial holds: its degree plus one.
    pub fn num_coefficients(&self) -> (n: usize)
        ensures
            n == self.view_coefficients().len(),
    {
        self.coefficients.len()
    }

    /// The product polynomial: its degree is the sum of the factors' degrees
    /// and its coefficient `k` is the convolution `sum of a[i] * b[k - i]`.
    pub fn mul(&self, other: &Polynomial) -> (r: Polynomial)
        requires
            self.wf(),
            other.wf(),
            self.view_coefficients().len() + other.view_coefficients().len() - 1 <= usize::MAX,
            convolution_fits(self.view_coefficients(), other.view_coefficients()),
        ensures
            r.wf(),
            r.view_coefficients().len() == self.view_coefficients().len()
                + other.view_coefficients().len() - 1,
            forall|k: int|
                0 <= k < r.view_coefficients().len() ==> r.view_coefficients()[k]
                    == conv_coefficient(self.view_coefficients(), other.view_coefficients(), k),
    {
        let ghost a = self.view_coefficients();
        let ghost b = other.view_coefficients();
        let n = (self.coefficients.len() - 1) + other.coefficients.len();
        let mut result: Vec<i64> = Vec::new();
        let mut k: usize = 0;
        while k < n
            invariant
                n == a.len() + b.len() - 1,
                a == self.view_coefficients(),
                b == other.view_coefficients(),
                a.len() >= 1,
                b.len() >= 1,
                convolution_fits(a, b),
                k <= n,
                result@.len() == k,
                forall|k2: int| 0 <= k2 < k ==> result@[k2] == conv_coefficient(a, b, k2),
            decreases n - k,
        {
            let mut sum: i64 = 0;
            let mut i: usize = 0;
            while i < self.coefficients.len()
                invariant
                    n == a.len() + b.len() - 1,
                    a == self.view_coefficients(),
                    b == other.view_coefficients(),
                    a.len() >= 1,
                    b.len() >= 1,
                    convolution_fits(a, b),
                    k < n,
                    i <= a.len(),
                    sum == conv_partial(a, b, k as int, i as int),
                decreases a.len() - i,
            {
                if i <= k && k - i < other.coefficients.len() {
                    let p = self.coefficients[i] * other.coefficients[k - i];
                    proof {
                        assert(conv_partial(a, b, k as int, i + 1) == sum + p);
                    }
                    sum = sum + p;
                } else {
                    proof {
                        assert(conv_partial(a, b, k as int, i + 1) == sum);
                    }
                }
                i = i + 1;
            }
            result.push(sum);
            k = k + 1;
        }
        Polynomial { coefficients: result }
    }
}

} // verus!
