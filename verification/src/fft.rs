//! A sample buffer shaped for a radix-2 FFT (fast Fourier transform): its
//! length must be a power of two. Where the length was once pinned by a
//! type-level assertion, here the power-of-two shape is a precondition of the
//! constructor and an invariant every holder of the buffer can rely on.

use vstd::arithmetic::power2::is_pow2;
use vstd::prelude::*;

pub use crate::bool_assertions::Assert;
pub use crate::bool_assertions::IsTrue;
pub use crate::bool_assertions::is_power_of_two;

verus! {

/// A buffer whose length is a power of two, as radix-2 FFT requires.
pub struct FftArray<T> {
    data: Vec<T>,
}

impl<T> FftArray<T> {
    pub closed spec fn view_data(self) -> Seq<T> {
        self.data@
    }

    /// The power-of-two shape every `FftArray` keeps.
    pub open spec fn wf(self) -> bool {
        is_pow2(self.view_data().len() as int)
    }

    pub fn len(&self) -> (n: usize)
        ensures
            n == self.view_data().len(),
    {
        self.data.len()
    }
}

impl<T: Copy> FftArray<T> {
    /// A buffer of `len` copies of `fill`; `len` must be a power of two.
    pub fn new(len: usize, fill: T) -> (r: FftArray<T>)
        requires
            is_pow2(len as int),
        ensures
            r.wf(),
            r.view_data().len() == len,
            forall|i: int| 0 <= i < len ==> r.view_data()[i] == fill,
    {
        let mut data: Vec<T> = Vec::new();
        let mut i: usize = 0;
        while i < len
            invariant
                i <= len,
                data@.len() == i,
                forall|j: int| 0 <= j < i ==> data@[j] == fill,
            decreases len - i,
        {
            data.push(fill);
            i = i + 1;
        }
        FftArray { data }
    }
}

} // verus!
