//! Finding the smallest element of a slice.

use vstd::prelude::*;

verus! {

/// Returns a reference to the smallest element of `v`, which must not be
/// empty: the result is one of the elements and no element is smaller.
pub fn smallest(v: &[i32]) -> (r: &i32)
    requires
        v@.len() > 0,
    ensures
        exists|i: int| 0 <= i < v@.len() && *r == v@[i],
        forall|i: int| 0 <= i < v@.len() ==> *r <= v@[i],
{
    let mut s: &i32 = &v[0];
    let mut idx: usize = 1;
    while idx < v.len()
        invariant
            1 <= idx <= v@.len(),
            exists|i: int| 0 <= i < v@.len() && *s == v@[i],
            forall|i: int| 0 <= i < idx ==> *s <= v@[i],
        decreases v@.len() - idx,
    {
        if v[idx] < *s {
            s = &v[idx];
        }
        idx += 1;
    }
    s
}

} // verus!
