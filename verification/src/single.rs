//! Order and classification of IEEE 754 single-precision bit patterns.
//!
//! A pattern is a `u32`: one sign bit, eight exponent bits, twenty-three
//! fraction bits. Patterns are compared as the numbers they encode, so
//! the two zeros are equal and a NaN is unordered with everything.

use vstd::prelude::*;

verus! {

/// The sign bit.
pub const SIGN_BIT: u32 = 0x8000_0000;

/// The pattern of positive infinity; every larger magnitude is a NaN.
pub const INFINITY: u32 = 0x7f80_0000;

/// The pattern with its sign bit cleared.
pub open spec fn magnitude(bits: u32) -> int {
    if bits >= SIGN_BIT {
        bits - SIGN_BIT
    } else {
        bits as int
    }
}

/// The sign bit is set. True of negative zero and of a NaN that carries the bit.
pub open spec fn sign_negative(bits: u32) -> bool {
    bits >= SIGN_BIT
}

/// Not a number: the magnitude lies above that of infinity.
pub open spec fn nan(bits: u32) -> bool {
    magnitude(bits) > INFINITY
}

/// Neither a NaN nor an infinity.
pub open spec fn finite(bits: u32) -> bool {
    magnitude(bits) < INFINITY
}

/// Positive or negative zero.
pub open spec fn zero(bits: u32) -> bool {
    magnitude(bits) == 0
}

/// The place of a pattern on the number line: patterns that are not NaN
/// encode numbers in the order of their ranks, and both zeros have rank 0.
pub open spec fn rank(bits: u32) -> int {
    if bits >= SIGN_BIT {
        -magnitude(bits)
    } else {
        magnitude(bits)
    }
}

/// `a < b` as numbers; false when either is a NaN.
pub open spec fn lt(a: u32, b: u32) -> bool {
    !nan(a) && !nan(b) && rank(a) < rank(b)
}

/// `a <= b` as numbers; false when either is a NaN.
pub open spec fn le(a: u32, b: u32) -> bool {
    !nan(a) && !nan(b) && rank(a) <= rank(b)
}

/// `a > b` as numbers; false when either is a NaN.
pub open spec fn gt(a: u32, b: u32) -> bool {
    lt(b, a)
}

/// `a == b` as numbers; false when either is a NaN.
pub open spec fn same(a: u32, b: u32) -> bool {
    !nan(a) && !nan(b) && rank(a) == rank(b)
}

/// `v` lies between `a` and `b`, bounds included, whichever of the two is the smaller.
pub open spec fn between(v: u32, a: u32, b: u32) -> bool {
    (le(a, v) && le(v, b)) || (le(b, v) && le(v, a))
}

/// Finite with the sign bit clear: a length.
pub open spec fn length(bits: u32) -> bool {
    bits < INFINITY
}

/// Whether the sign bit is set.
pub fn is_sign_negative(bits: u32) -> (r: bool)
    ensures
        r == sign_negative(bits),
{
    bits >= SIGN_BIT
}

/// The pattern with its sign bit cleared.
fn magnitude_of(bits: u32) -> (r: u32)
    ensures
        r == magnitude(bits),
{
    if bits >= SIGN_BIT {
        bits - SIGN_BIT
    } else {
        bits
    }
}

/// Whether the pattern is a NaN.
pub fn is_nan(bits: u32) -> (r: bool)
    ensures
        r == nan(bits),
{
    magnitude_of(bits) > INFINITY
}

/// Whether the pattern is neither a NaN nor an infinity.
pub fn is_finite(bits: u32) -> (r: bool)
    ensures
        r == finite(bits),
{
    magnitude_of(bits) < INFINITY
}

/// Whether the pattern is one of the two zeros.
pub fn is_zero(bits: u32) -> (r: bool)
    ensures
        r == zero(bits),
{
    magnitude_of(bits) == 0
}

/// Whether the pattern is finite with its sign bit clear.
pub fn is_length(bits: u32) -> (r: bool)
    ensures
        r == length(bits),
        r == (finite(bits) && !sign_negative(bits)),
{
    bits < INFINITY
}

/// The rank of a pattern.
fn rank_of(bits: u32) -> (r: i64)
    ensures
        r == rank(bits),
{
    let m: i64 = magnitude_of(bits) as i64;
    if bits >= SIGN_BIT {
        -m
    } else {
        m
    }
}

/// `a < b` as numbers.
pub fn less(a: u32, b: u32) -> (r: bool)
    ensures
        r == lt(a, b),
{
    !is_nan(a) && !is_nan(b) && rank_of(a) < rank_of(b)
}

/// `a <= b` as numbers.
pub fn less_eq(a: u32, b: u32) -> (r: bool)
    ensures
        r == le(a, b),
{
    !is_nan(a) && !is_nan(b) && rank_of(a) <= rank_of(b)
}

/// `a > b` as numbers.
pub fn greater(a: u32, b: u32) -> (r: bool)
    ensures
        r == gt(a, b),
{
    less(b, a)
}

/// `a == b` as numbers.
pub fn equal(a: u32, b: u32) -> (r: bool)
    ensures
        r == same(a, b),
{
    !is_nan(a) && !is_nan(b) && rank_of(a) == rank_of(b)
}

/// Whether `v` lies between `a` and `b`, bounds included.
pub fn is_between(v: u32, a: u32, b: u32) -> (r: bool)
    ensures
        r == between(v, a, b),
{
    (less_eq(a, v) && less_eq(v, b)) || (less_eq(b, v) && less_eq(v, a))
}

/// Two lengths are ordered as their patterns are, and are equal as numbers
/// only when they are the same pattern.
pub proof fn lemma_lengths_order(a: u32, b: u32)
    requires
        length(a),
        length(b),
    ensures
        lt(a, b) == (a < b),
        le(a, b) == (a <= b),
        same(a, b) == (a == b),
{
}

} // verus!
