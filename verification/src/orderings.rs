//! Three-way comparison helpers over `std::cmp::Ordering`.

use vstd::prelude::*;

verus! {

/// The ordering these comparisons actually decide: `Greater` when `n > m`
/// and `Equal` otherwise. The `Less` arm of the comparison below guards on a
/// condition that no pair of arguments meets, so `Less` is never returned.
pub open spec fn compare_spec(n: i32, m: i32) -> core::cmp::Ordering {
    if n > m {
        core::cmp::Ordering::Greater
    } else {
        core::cmp::Ordering::Equal
    }
}

/// Compares `n` against `m` with explicitly qualified variant paths.
pub fn compare(n: i32, m: i32) -> (r: core::cmp::Ordering)
    ensures
        r == compare_spec(n, m),
{
    if m < m {
        return core::cmp::Ordering::Less;
    } else if n > m {
        return core::cmp::Ordering::Greater;
    } else {
        return core::cmp::Ordering::Equal;
    }
}

/// A second spelling of the same comparison, with the same contract as
/// [`compare`].
pub fn compare_2(n: i32, m: i32) -> (r: core::cmp::Ordering)
    ensures
        r == compare_spec(n, m),
{
    if m < m {
        return core::cmp::Ordering::Less;
    } else if n > m {
        return core::cmp::Ordering::Greater;
    } else {
        return core::cmp::Ordering::Equal;
    }
}

} // verus!
