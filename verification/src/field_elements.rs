//! Field elements for cryptographic fields of a compile-time bit width. The
//! number of 64-bit limbs follows from the width — `(BITS + 63) / 64` — and
//! every element carries exactly that many limbs, as an invariant checked by
//! the verifier rather than by type-level array arithmetic.

use vstd::prelude::*;

verus! {

/// How many 64-bit limbs a `BITS`-wide element needs.
pub open spec fn spec_limb_count(bits: nat) -> nat {
    (bits + 63) / 64
}

/// An element of a field whose modulus is `BITS` bits wide, stored as little
/// ends of 64-bit limbs.
pub struct FieldElement<const BITS: usize> {
    limbs: Vec<u64>,
}

impl<const BITS: usize> FieldElement<BITS> {
    pub closed spec fn view_limbs(self) -> Seq<u64> {
        self.limbs@
    }

    /// Exactly as many limbs as the bit width demands.
    pub open spec fn wf(self) -> bool {
        self.view_limbs().len() == spec_limb_count(BITS as nat)
    }

    /// The limb count, computed without overflow even for the widest `BITS`.
    pub fn limb_count() -> (n: usize)
        ensures
            n == spec_limb_count(BITS as nat),
    {
        let whole = BITS / 64;
        let n = if BITS % 64 == 0 {
            whole
        } else {
            whole + 1
        };
        proof {
            assert(n == spec_limb_count(BITS as nat)) by (nonlinear_arith)
                requires
                    n == BITS / 64 + (if BITS % 64 == 0 {
                        0int
                    } else {
                        1int
                    }),
            ;
        }
        n
    }

    /// The zero element: every limb is zero.
    pub fn zero() -> (r: FieldElement<BITS>)
        ensures
            r.wf(),
            forall|i: int| 0 <= i < r.view_limbs().len() ==> r.view_limbs()[i] == 0,
    {
        let count = Self::limb_count();
        let mut limbs: Vec<u64> = Vec::new();
        let mut i: usize = 0;
        while i < count
            invariant
                i <= count,
                limbs@.len() == i,
                forall|j: int| 0 <= j < i ==> limbs@[j] == 0,
            decreases count - i,
        {
            limbs.push(0);
            i = i + 1;
        }
        FieldElement { limbs }
    }

    /// An element from its limbs; there must be exactly as many as the bit
    /// width demands.
    pub fn from_limbs(limbs: Vec<u64>) -> (r: FieldElement<BITS>)
        requires
            limbs@.len() == spec_limb_count(BITS as nat),
        ensures
            r.wf(),
            r.view_limbs() == limbs@,
    {
        FieldElement { limbs }
    }

    /// Read access to the limbs.
    pub fn limbs(&self) -> (r: &Vec<u64>)
        ensures
            r@ == self.view_limbs(),
    {
        &self.limbs
    }
}

/// 4 limbs: the width of BN254 or secp256k1 coordinates.
pub type Fp256 = FieldElement<256>;

/// 6 limbs: the width of BLS12-381 coordinates.
pub type Fp381 = FieldElement<381>;

/// 4 limbs: the width of Curve25519 coordinates.
pub type Fp255 = FieldElement<255>;

} // verus!
