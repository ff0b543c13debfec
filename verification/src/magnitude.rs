//! The unsigned magnitude of an integer literal.
//!
//! The digits are kept in a `BigUint`, which the verifier cannot look into.
//! This module gives the number it holds a name and states, without proof,
//! how the comparisons of `BigUint` relate to that number.

use crate::compare::order_of;
use num_bigint::BigUint;
use std::cmp::Ordering;
use vstd::prelude::*;

verus! {

/// `num_bigint::BigUint`, declared so that it can stand in fields and
/// signatures. Nothing inside it is visible to the verifier.
#[verifier::external_type_specification]
#[verifier::external_body]
pub struct ExBigUint(num_bigint::BigUint);

/// The natural number that a `BigUint` holds.
pub uninterp spec fn magnitude(n: BigUint) -> nat;

/// `BigUint`'s `clone`. Believed, not proved: the copy holds the same
/// number.
pub assume_specification[ <BigUint as Clone>::clone ](n: &BigUint) -> (r: BigUint)
    ensures
        magnitude(r) == magnitude(*n),
;

/// Calls `BigUint`'s `==`. Believed, not proved: it answers `true` exactly
/// when both sides hold the same number, since a `BigUint` keeps its digits
/// without a leading zero and `==` compares the digits.
#[verifier::external_body]
pub(crate) fn same_magnitude(a: &BigUint, b: &BigUint) -> (r: bool)
    ensures
        r == (magnitude(*a) == magnitude(*b)),
{
    a == b
}

/// Calls `BigUint`'s `cmp`. Believed, not proved: it orders two values as
/// the numbers that they hold are ordered. It compares the counts of
/// digits and then the digits from the most significant one down, and a
/// `BigUint` keeps its digits without a leading zero.
#[verifier::external_body]
pub(crate) fn compare_magnitude(a: &BigUint, b: &BigUint) -> (r: Ordering)
    ensures
        r == order_of(magnitude(*a), magnitude(*b)),
{
    a.cmp(b)
}

} // verus!
