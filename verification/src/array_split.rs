//! Splitting a sequence of values in two at a caller-chosen point. The split
//! point is checked against the length before any element moves, so both
//! halves are exact prefix and suffix.

use vstd::prelude::*;

verus! {

/// Split `arr` into its first `split_at` elements and the rest.
pub fn split<T: Copy>(arr: &Vec<T>, split_at: usize) -> (r: (Vec<T>, Vec<T>))
    requires
        split_at <= arr@.len(),
    ensures
        r.0@ == arr@.take(split_at as int),
        r.1@ == arr@.skip(split_at as int),
{
    let mut first: Vec<T> = Vec::new();
    let mut rest: Vec<T> = Vec::new();
    let mut i: usize = 0;
    while i < arr.len()
        invariant
            i <= arr@.len(),
            split_at <= arr@.len(),
            first@ == arr@.take(if i <= split_at {
                i as int
            } else {
                split_at as int
            }),
            rest@ == (if i <= split_at {
                Seq::<T>::empty()
            } else {
                arr@.subrange(split_at as int, i as int)
            }),
        decreases arr@.len() - i,
    {
        if i < split_at {
            first.push(arr[i]);
            proof {
                assert(first@ =~= arr@.take(i + 1));
            }
        } else {
            rest.push(arr[i]);
            proof {
                assert(rest@ =~= arr@.subrange(split_at as int, i + 1));
            }
        }
        i = i + 1;
    }
    proof {
        assert(arr@.take(split_at as int) =~= first@);
        if split_at < arr@.len() {
            assert(arr@.skip(split_at as int) =~= rest@);
        } else {
            assert(arr@.skip(split_at as int) =~= rest@);
        }
    }
    (first, rest)
}

} // verus!
