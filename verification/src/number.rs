//! The numbers in which amounts, temperatures and pressures are kept.
//!
//! The library computes with any type that has the operations of arithmetic,
//! an order, and a conversion from whole counts. It never asks what a sum or
//! a product is: a result is stated as the type's own operations applied in a
//! given order to given operands, so that `a * b / c` is stated as
//! `a.mul_spec(b).div_spec(c)`.
//!
//! Such a statement holds for every type that is [`exact`]: whose operations
//! return what they are specified to return, the same result for the same
//! operands. A statement that rests on comparisons alone asks only that the
//! type be [`ordered`], and one that rests on no operation at all is made
//! without any condition. Nothing here claims that a floating-point type is
//! exact. Its operations are the same function of their operands everywhere
//! but for the bits of a result that is not a number, and for such a type
//! the statements describe what is computed up to those bits.
//!
//! The functions that compute ask that the type be [`total`]: that its
//! operations accept all operands, as those of floating-point numbers do and
//! those of the integers do not.

use vstd::prelude::*;
use vstd::std_specs::cmp::PartialOrdSpec;
use vstd::std_specs::convert::FromSpec;
use vstd::std_specs::ops::{AddSpec, DivSpec, MulSpec, NegSpec, SubSpec};
use core::cmp::Ordering;
use core::ops::{Add, Div, Mul, Neg, Sub};

verus! {

/// A type of numbers to compute with.
pub trait Number: Copy + Add<Output = Self> + Sub<Output = Self> + Mul<Output = Self> + Div<
    Output = Self,
> + Neg<Output = Self> + PartialOrd + From<u16> {

}

impl<
    T: Copy + Add<Output = T> + Sub<Output = T> + Mul<Output = T> + Div<Output = T> + Neg<
        Output = T,
    > + PartialOrd + From<u16>,
> Number for T {

}

/// The operations of `Q` accept all operands.
pub open spec fn total<Q: Number>() -> bool {
    &&& forall|a: Q, b: Q| #[trigger] a.add_req(b)
    &&& forall|a: Q, b: Q| #[trigger] a.sub_req(b)
    &&& forall|a: Q, b: Q| #[trigger] a.mul_req(b)
    &&& forall|a: Q, b: Q| #[trigger] a.div_req(b)
    &&& forall|a: Q| #[trigger] a.neg_req()
}

/// The order of `Q` returns what its specification says.
pub open spec fn ordered<Q: Number>() -> bool {
    Q::obeys_partial_cmp_spec()
}

/// The conversion of whole numbers to `Q` returns what its specification says.
pub open spec fn converts<Q: Number>() -> bool {
    <Q as FromSpec<u16>>::obeys_from_spec()
}

/// The operations, the order and the conversion of `Q` return what their
/// specifications say.
pub open spec fn exact<Q: Number>() -> bool {
    &&& Q::obeys_add_spec()
    &&& Q::obeys_sub_spec()
    &&& Q::obeys_mul_spec()
    &&& Q::obeys_div_spec()
    &&& Q::obeys_neg_spec()
    &&& ordered::<Q>()
    &&& converts::<Q>()
}

/// The whole number `n` as a `Q`.
pub open spec fn count<Q: Number>(n: u16) -> Q {
    <Q as FromSpec<u16>>::from_spec(n)
}

/// The whole number `n` as a `Q`, for numbers beyond 16 bits: what is above
/// the lowest 16 bits of `n`, times 256 times 256, plus the lowest 16 bits.
pub open spec fn wide_count<Q: Number>(n: u64) -> Q
    decreases n,
{
    if n <= u16::MAX {
        count::<Q>(n as u16)
    } else {
        wide_count::<Q>(n / 65536).mul_spec(count::<Q>(256)).mul_spec(count::<Q>(256)).add_spec(
            count::<Q>((n % 65536) as u16),
        )
    }
}

/// `a` is less than `b`.
pub open spec fn less<Q: Number>(a: Q, b: Q) -> bool {
    a.partial_cmp_spec(&b) == Some(Ordering::Less)
}

/// `a` is greater than `b`.
pub open spec fn greater<Q: Number>(a: Q, b: Q) -> bool {
    a.partial_cmp_spec(&b) == Some(Ordering::Greater)
}

/// `a` is greater than or equal to `b`.
pub open spec fn at_least<Q: Number>(a: Q, b: Q) -> bool {
    a.partial_cmp_spec(&b) == Some(Ordering::Greater) || a.partial_cmp_spec(&b) == Some(
        Ordering::Equal,
    )
}

/// `a` is less than or equal to `b`.
pub open spec fn at_most<Q: Number>(a: Q, b: Q) -> bool {
    a.partial_cmp_spec(&b) == Some(Ordering::Less) || a.partial_cmp_spec(&b) == Some(
        Ordering::Equal,
    )
}

/// `value` brought into the range from `low` to `high`: `low` where `value`
/// is less than `low`, `high` where it is greater than `high`, and `value`
/// itself otherwise.
pub open spec fn clamped<Q: Number>(value: Q, low: Q, high: Q) -> Q {
    let raised = if less(value, low) {
        low
    } else {
        value
    };
    if greater(raised, high) {
        high
    } else {
        raised
    }
}

/// `a` and `b` can be compared: one is less than, equal to or greater than
/// the other.
pub open spec fn comparable<Q: Number>(a: Q, b: Q) -> bool {
    a.partial_cmp_spec(&b) is Some
}

/// `low` and `high` are each equal to themselves, and `low` is at most `high`.
pub open spec fn ordered_bounds<Q: Number>(low: Q, high: Q) -> bool {
    &&& low.partial_cmp_spec(&low) == Some(Ordering::Equal)
    &&& high.partial_cmp_spec(&high) == Some(Ordering::Equal)
    &&& at_most(low, high)
    &&& at_least(high, low)
}

/// `low` and `high` bound a range: neither is less or greater than itself,
/// and `low` does not lie above `high`.
pub open spec fn bounds<Q: Number>(low: Q, high: Q) -> bool {
    &&& !less(low, low)
    &&& !greater(high, high)
    &&& !greater(low, high)
    &&& !less(high, low)
}

/// The whole number `n` as a `Q`.
pub fn from_count<Q: Number>(n: u16) -> (value: Q)
    ensures
        converts::<Q>() ==> value == count::<Q>(n),
{
    Q::from(n)
}

/// The whole number `n` as a `Q`, for numbers beyond 16 bits.
pub fn from_wide_count<Q: Number>(n: u64) -> (value: Q)
    requires
        total::<Q>(),
    ensures
        exact::<Q>() ==> value == wide_count::<Q>(n),
    decreases n,
{
    if n <= 65535 {
        let low: u16 = n as u16;
        from_count(low)
    } else {
        let low: u16 = (n % 65536) as u16;
        let upper: Q = from_wide_count(n / 65536);
        let step: Q = from_count(256);
        let lower: Q = from_count(low);
        upper * step * step + lower
    }
}

/// Whether `a` is less than `b`.
pub fn is_less<Q: Number>(a: Q, b: Q) -> (result: bool)
    ensures
        ordered::<Q>() ==> result == less(a, b),
{
    a < b
}

/// Whether `a` is greater than `b`.
pub fn is_greater<Q: Number>(a: Q, b: Q) -> (result: bool)
    ensures
        ordered::<Q>() ==> result == greater(a, b),
{
    a > b
}

/// Whether `a` is greater than or equal to `b`.
pub fn is_at_least<Q: Number>(a: Q, b: Q) -> (result: bool)
    ensures
        ordered::<Q>() ==> result == at_least(a, b),
{
    a >= b
}

/// `value` brought into the range from `low` to `high`.
pub fn clamp<Q: Number>(value: Q, low: Q, high: Q) -> (result: Q)
    ensures
        result == value || result == low || result == high,
        ordered::<Q>() ==> result == clamped(value, low, high),
{
    let raised = if is_less(value, low) {
        low
    } else {
        value
    };
    if is_greater(raised, high) {
        high
    } else {
        raised
    }
}

/// What comes out of a clamp is neither less than the lower bound nor
/// greater than the upper one.
pub proof fn lemma_clamp_stays_in_range<Q: Number>(value: Q, low: Q, high: Q)
    requires
        bounds(low, high),
    ensures
        !less(clamped(value, low, high), low),
        !greater(clamped(value, low, high), high),
{
}

/// What comes out of a clamp lies in the range from the lower bound to the
/// upper one, for every value that can be compared with the bounds.
pub proof fn lemma_clamp_lies_in_range<Q: Number>(value: Q, low: Q, high: Q)
    requires
        ordered_bounds(low, high),
        comparable(value, low),
        comparable(value, high),
    ensures
        at_least(clamped(value, low, high), low),
        at_most(clamped(value, low, high), high),
{
    match value.partial_cmp_spec(&low) {
        Some(Ordering::Less) => {},
        Some(Ordering::Equal) => {},
        Some(Ordering::Greater) => {},
        None => {},
    }
    match value.partial_cmp_spec(&high) {
        Some(Ordering::Less) => {},
        Some(Ordering::Equal) => {},
        Some(Ordering::Greater) => {},
        None => {},
    }
}

/// Clamping twice gives what clamping once gives.
pub proof fn lemma_clamp_is_idempotent<Q: Number>(value: Q, low: Q, high: Q)
    requires
        bounds(low, high),
    ensures
        clamped(clamped(value, low, high), low, high) == clamped(value, low, high),
{
}

} // verus!
