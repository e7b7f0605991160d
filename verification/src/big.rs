//! Coordinates of any size: `num::BigUint`, the number that such a value
//! holds, and the operations on it that the renderer needs.

use crate::gcd::gcd;
use crate::literal::{decimal_value, is_big_literal};
use num::BigUint;
use std::str::FromStr;
use vstd::prelude::*;

verus! {

/// `num::BigUint`, an unsigned integer of any size. The verifier sees
/// nothing of its representation; what is known of a value is what the
/// functions below say of the number it holds.
#[verifier::external_type_specification]
#[verifier::external_body]
pub struct ExBigUint(num::BigUint);

/// The number that a `BigUint` holds. Nothing is proved of it: every fact
/// about it comes from the contract of one of the functions below.
pub uninterp spec fn big_value(n: BigUint) -> nat;

/// Calls `BigUint::from_str`, which reads its argument in radix ten.
///
/// Assumed from the crate's source: it takes one leading plus sign away,
/// refuses what is left if it is empty or begins with an underscore, passes
/// over every other underscore and refuses any other character that is not a
/// decimal digit. The digits that remain are the number, most significant
/// first.
#[verifier::external_body]
pub(crate) fn parse_big(s: &str) -> (parsed: Option<BigUint>)
    ensures
        parsed is Some <==> is_big_literal(s@),
        parsed matches Some(n) ==> big_value(n) == decimal_value(s@),
{
    match BigUint::from_str(s) {
        Ok(n) => Some(n),
        Err(_) => None,
    }
}

/// Calls `FromPrimitive::from_i32` for `BigUint`.
///
/// Assumed from the crate's source: it gives the number itself where it is
/// not negative, and nothing where it is.
#[verifier::external_body]
pub(crate) fn big_from_i32(n: i32) -> (converted: Option<BigUint>)
    ensures
        converted is Some <==> n >= 0,
        converted matches Some(big) ==> big_value(big) == n,
{
    num::FromPrimitive::from_i32(n)
}

/// Adds a `u32` to a `&BigUint` with the crate's `+`.
///
/// Assumed from the crate's source: the sum is exact, since a `BigUint` takes
/// another digit where the addition carries out of the last one.
#[verifier::external_body]
pub(crate) fn big_add_u32(n: &BigUint, offset: u32) -> (sum: BigUint)
    ensures
        big_value(sum) == big_value(*n) + offset,
{
    n + offset
}

/// Calls `num::Integer::gcd` for `BigUint`.
///
/// Assumed from the crate's source, which returns a copy of the other
/// argument where one is zero and runs Stein's binary algorithm otherwise:
/// the result holds the greatest common divisor of the two numbers.
#[verifier::external_body]
pub(crate) fn big_gcd(a: &BigUint, b: &BigUint) -> (g: BigUint)
    ensures
        big_value(g) == gcd(big_value(*a), big_value(*b)),
{
    num::Integer::gcd(a, b)
}

/// Compares two `BigUint` with the crate's `==`.
///
/// Assumed from the crate's source, which keeps the digits of a value
/// without leading zeros and compares them one by one: two values are equal
/// exactly where they hold the same number.
#[verifier::external_body]
pub(crate) fn big_eq(a: &BigUint, b: &BigUint) -> (same: bool)
    ensures
        same == (big_value(*a) == big_value(*b)),
{
    a == b
}

} // verus!
