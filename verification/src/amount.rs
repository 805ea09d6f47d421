//! Amounts: the smallest unit (yocto), whole units, and decimal text.

use vstd::prelude::*;

verus! {

/// The number of smallest units in one whole unit: ten to the 24th.
pub const YOCTO_PER_NEAR: u128 = 1_000_000_000_000_000_000_000_000u128;

/// Half a whole unit, in smallest units.
pub const HALF_NEAR: u128 = 500_000_000_000_000_000_000_000u128;

/// Whole units as smallest units.
pub open spec fn ntoy_spec(near_amount: u128) -> int {
    near_amount * YOCTO_PER_NEAR
}

/// Smallest units as whole units, rounded to the nearest, halves upwards.
pub open spec fn yton_spec(yocto_amount: u128) -> int {
    (yocto_amount + HALF_NEAR) / (YOCTO_PER_NEAR as int)
}

/// Converts whole units to smallest units.
pub fn ntoy(near_amount: u128) -> (yocto: u128)
    requires
        ntoy_spec(near_amount) <= u128::MAX,
    ensures
        yocto == ntoy_spec(near_amount),
{
    near_amount * YOCTO_PER_NEAR
}

/// Converts smallest units to whole units, rounding to the nearest.
///
/// The rounding never leaves the range of `u128`, whatever the amount.
pub fn yton(yocto_amount: u128) -> (near: u128)
    ensures
        near == yton_spec(yocto_amount),
{
    let whole: u128 = yocto_amount / YOCTO_PER_NEAR;
    let rest: u128 = yocto_amount % YOCTO_PER_NEAR;
    if rest >= HALF_NEAR {
        whole + 1
    } else {
        whole
    }
}

/// The decimal digit that stands for a number below ten.
pub open spec fn digit_char(d: nat) -> char
    recommends
        d < 10,
{
    if d == 0 {
        '0'
    } else if d == 1 {
        '1'
    } else if d == 2 {
        '2'
    } else if d == 3 {
        '3'
    } else if d == 4 {
        '4'
    } else if d == 5 {
        '5'
    } else if d == 6 {
        '6'
    } else if d == 7 {
        '7'
    } else if d == 8 {
        '8'
    } else {
        '9'
    }
}

/// A number in decimal, most significant digit first, without leading zeros.
pub open spec fn decimal_digits(n: nat) -> Seq<char>
    decreases n,
{
    if n < 10 {
        seq![digit_char(n)]
    } else {
        decimal_digits(n / 10).push(digit_char(n % 10))
    }
}

/// Calls `ToString::to_string` of `u128`.
///
/// Trusted: the standard library writes an unsigned integer in decimal, most
/// significant digit first, with no sign, padding or leading zero.
#[verifier::external_body]
pub(crate) fn u128_to_string(n: u128) -> (text: String)
    ensures
        text@ == decimal_digits(n as nat),
{
    n.to_string()
}

} // verus!
