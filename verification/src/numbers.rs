//! Triangle numbers and guarded integer division.

use vstd::prelude::*;

verus! {

/// The n-th triangle number: 1 + 2 + ... + n, and 0 when n is not positive.
pub open spec fn triangle(n: int) -> int
    decreases n,
{
    if n <= 0 {
        0
    } else {
        n + triangle(n - 1)
    }
}

/// Triangle numbers are never negative.
pub proof fn lemma_triangle_nonneg(n: int)
    ensures
        triangle(n) >= 0,
    decreases n,
{
    if n > 0 {
        lemma_triangle_nonneg(n - 1);
    }
}

/// Triangle numbers are non-negative and grow with their argument.
pub proof fn lemma_triangle_monotonic(a: int, b: int)
    requires
        a <= b,
    ensures
        0 <= triangle(a) <= triangle(b),
    decreases b,
{
    lemma_triangle_nonneg(a);
    if b > 0 && a < b {
        lemma_triangle_monotonic(a, b - 1);
    }
}

/// Sums 1 up to `n` with an explicit loop.
pub fn triangle_for(n: i32) -> (sum: i32)
    requires
        triangle(n as int) <= i32::MAX,
    ensures
        sum == triangle(n as int),
{
    let mut sum: i32 = 0;
    let mut i: i32 = 0;
    while i < n
        invariant
            0 <= i,
            n > 0 ==> i <= n,
            n <= 0 ==> i == 0,
            0 <= sum,
            sum == triangle(i as int),
            triangle(n as int) <= i32::MAX,
        decreases n - i,
    {
        i = i + 1;
        proof {
            lemma_triangle_monotonic(i as int, n as int);
        }
        sum = sum + i;
    }
    sum
}

/// Sums 1 up to `n` by folding the running sum over the range, the
/// accumulator-style counterpart of [`triangle_for`].
pub fn triangle_fold(n: i32) -> (sum: i32)
    requires
        triangle(n as int) <= i32::MAX,
    ensures
        sum == triangle(n as int),
{
    let mut acc: i32 = 0;
    let mut item: i32 = 0;
    while item < n
        invariant
            0 <= item,
            n > 0 ==> item <= n,
            n <= 0 ==> item == 0,
            0 <= acc,
            acc == triangle(item as int),
            triangle(n as int) <= i32::MAX,
        decreases n - item,
    {
        item = item + 1;
        proof {
            lemma_triangle_monotonic(item as int, n as int);
        }
        acc = acc + item;
    }
    acc
}

/// The way a division request can fail.
#[derive(Clone, Copy, Debug, PartialEq, Eq, Structural)]
pub enum DivideError {
    DivisionByZero,
}

impl DivideError {
    /// The message that describes this error.
    pub fn message(&self) -> (s: &'static str)
        ensures
            s@ == "cannot divide with 0 value"@,
    {
        match self {
            DivideError::DivisionByZero => "cannot divide with 0 value",
        }
    }
}

/// Divides `num` by `divisor`; the caller must rule out a zero divisor.
pub fn divide(num: usize, divisor: usize) -> (r: usize)
    requires
        divisor != 0,
    ensures
        r == num / divisor,
{
    num / divisor
}

/// Divides `num` by `divisor`, reporting a zero divisor as an error: the
/// result is `Err` exactly when `divisor` is zero.
pub fn divide_safe(num: usize, divisor: usize) -> (r: Result<usize, DivideError>)
    ensures
        r == (if divisor == 0 {
            Err::<usize, DivideError>(DivideError::DivisionByZero)
        } else {
            Ok::<usize, DivideError>(num / divisor)
        }),
{
    if divisor == 0 {
        return Err(DivideError::DivisionByZero);
    }
    Ok(num / divisor)
}

} // verus!
