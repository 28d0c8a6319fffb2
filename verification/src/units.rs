//! Fixed-point quantities and the arithmetic on them.

use vstd::prelude::*;

verus! {

/// A quantity in hundredths of its unit: percent, degrees Celsius or milliseconds.
pub type Centi = i64;

/// `v`, moved into `[lo, hi]`.
pub open spec fn clamp(v: int, lo: int, hi: int) -> int {
    if v < lo {
        lo
    } else if v > hi {
        hi
    } else {
        v
    }
}

/// The larger of two numbers.
pub open spec fn larger(a: int, b: int) -> int {
    if a >= b {
        a
    } else {
        b
    }
}

/// `n / 100` rounded to the nearest integer, halves upwards.
pub open spec fn hundredth_of(n: int) -> int {
    (n + 50) / 100
}

/// `n / 10 000` rounded to the nearest integer, halves upwards.
pub open spec fn ten_thousandth_of(n: int) -> int {
    (n + 5_000) / 10_000
}

/// `v`, moved into `[lo, hi]`.
pub(crate) fn clamp_to(v: i64, lo: i64, hi: i64) -> (r: i64)
    requires
        lo <= hi,
    ensures
        r == clamp(v as int, lo as int, hi as int),
{
    if v < lo {
        lo
    } else if v > hi {
        hi
    } else {
        v
    }
}

/// `n / 100` rounded to the nearest integer, halves upwards.
pub(crate) fn hundredth(n: i64) -> (r: i64)
    requires
        0 <= n <= 1_000_000_000_000,
    ensures
        r == hundredth_of(n as int),
{
    (n + 50) / 100
}

/// `n / 10 000` rounded to the nearest integer, halves upwards.
pub(crate) fn ten_thousandth(n: i64) -> (r: i64)
    requires
        0 <= n <= 1_000_000_000_000,
    ensures
        r == ten_thousandth_of(n as int),
{
    (n + 5_000) / 10_000
}

} // verus!
