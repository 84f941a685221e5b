//! IEEE-754 binary64 arithmetic on bit patterns.
//!
//! Quantities live in the model as the bit patterns (`u64`) of IEEE-754
//! binary64 numbers. The four operations the integration scheme needs —
//! addition, subtraction, multiplication and strict comparison — are named
//! by uninterpreted spec functions and carried out by `rustc_apfloat`, a
//! software implementation of IEEE-754 arithmetic whose results are a
//! function of the operand bit patterns alone, identical on every machine.

use rustc_apfloat::Float;
use rustc_apfloat::ieee::Double;
use vstd::prelude::*;

verus! {

/// Bit pattern of the fixed integration step of the scheme
/// (three fortieths, 0.075 in decimal).
pub const TICK_RATE_BITS: u64 = 0x3FB3_3333_3333_3333;

/// Bit pattern of the extinction threshold (one hundredth, 0.01 in
/// decimal): a unit whose quantity does not exceed it does not survive
/// the end-of-tick cleanup.
pub const EXTINCTION_THRESHOLD_BITS: u64 = 0x3F84_7AE1_47AE_147B;

/// Bit pattern of positive zero.
pub const ZERO_BITS: u64 = 0;

/// The IEEE-754 binary64 sum of the numbers with bit patterns `a` and `b`,
/// rounded to nearest, ties to even, as a bit pattern.
pub uninterp spec fn add_bits(a: u64, b: u64) -> u64;

/// The IEEE-754 binary64 difference `a - b` of the numbers with bit
/// patterns `a` and `b`, rounded to nearest, ties to even, as a bit pattern.
pub uninterp spec fn sub_bits(a: u64, b: u64) -> u64;

/// The IEEE-754 binary64 product of the numbers with bit patterns `a` and
/// `b`, rounded to nearest, ties to even, as a bit pattern.
pub uninterp spec fn mul_bits(a: u64, b: u64) -> u64;

/// Whether the IEEE-754 binary64 number with bit pattern `a` compares
/// strictly greater than the one with bit pattern `b` (false whenever
/// either operand is a NaN).
pub uninterp spec fn gt_bits(a: u64, b: u64) -> bool;

/// Relies on `rustc_apfloat::ieee::Double`'s `Add` impl: IEEE-754 binary64
/// addition, rounded to nearest, ties to even, of the two operand bit
/// patterns.
#[verifier::external_body]
pub(crate) fn fadd(a: u64, b: u64) -> (r: u64)
    ensures
        r == add_bits(a, b),
{
    (Double::from_bits(a as u128) + Double::from_bits(b as u128)).value.to_bits() as u64
}

/// Relies on `rustc_apfloat::ieee::Double`'s `Sub` impl: IEEE-754 binary64
/// subtraction, rounded to nearest, ties to even, of the two operand bit
/// patterns.
#[verifier::external_body]
pub(crate) fn fsub(a: u64, b: u64) -> (r: u64)
    ensures
        r == sub_bits(a, b),
{
    (Double::from_bits(a as u128) - Double::from_bits(b as u128)).value.to_bits() as u64
}

/// Relies on `rustc_apfloat::ieee::Double`'s `Mul` impl: IEEE-754 binary64
/// multiplication, rounded to nearest, ties to even, of the two operand bit
/// patterns.
#[verifier::external_body]
pub(crate) fn fmul(a: u64, b: u64) -> (r: u64)
    ensures
        r == mul_bits(a, b),
{
    (Double::from_bits(a as u128) * Double::from_bits(b as u128)).value.to_bits() as u64
}

/// Relies on `rustc_apfloat::ieee::Double`'s `PartialOrd` impl: the IEEE-754
/// ordering of the two operands, under which a NaN compares greater than
/// nothing.
#[verifier::external_body]
pub(crate) fn fgt(a: u64, b: u64) -> (r: bool)
    ensures
        r == gt_bits(a, b),
{
    Double::from_bits(a as u128) > Double::from_bits(b as u128)
}

} // verus!
