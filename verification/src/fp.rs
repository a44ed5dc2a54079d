//! IEEE-754 binary64 values carried as raw 64-bit patterns.
//!
//! Verified code in this crate performs no native floating-point arithmetic:
//! every arithmetic operation is delegated, through a small trusted wrapper,
//! to `rustc_apfloat` (a port of LLVM's software implementation of IEEE-754
//! whose `Double` type works directly on bit patterns) or, for the square
//! root, to `ieee_apsqrt`. All wrappers select the round-to-nearest,
//! ties-to-even mode, so each operation is a deterministic function of its
//! operand bits, and the result of each is given a name by an uninterpreted
//! spec function. Contracts can then pin every computed value down to an
//! exact composition of these named operations.

use vstd::prelude::*;

use rustc_apfloat::Float;
use rustc_apfloat::Round;
use rustc_apfloat::ieee::Double;

verus! {

/// Bit pattern of the double 0.
pub const F_ZERO: u64 = 0x0000_0000_0000_0000;

/// Bit pattern of the double 1/2.
pub const F_HALF: u64 = 0x3FE0_0000_0000_0000;

/// Bit pattern of the double 1.
pub const F_ONE: u64 = 0x3FF0_0000_0000_0000;

/// The rounded sum of the doubles `a` and `b`.
pub uninterp spec fn fadd_bits(a: u64, b: u64) -> u64;

/// The rounded difference of the doubles `a` and `b`.
pub uninterp spec fn fsub_bits(a: u64, b: u64) -> u64;

/// The rounded product of the doubles `a` and `b`.
pub uninterp spec fn fmul_bits(a: u64, b: u64) -> u64;

/// The rounded quotient of the doubles `a` and `b`.
pub uninterp spec fn fdiv_bits(a: u64, b: u64) -> u64;

/// The double `a` with its sign flipped.
pub uninterp spec fn fneg_bits(a: u64) -> u64;

/// The correctly rounded square root of the double `a`.
pub uninterp spec fn fsqrt_bits(a: u64) -> u64;

/// Whether the double `a` is greater than or equal to the double `b`
/// (false whenever either operand is NaN).
pub uninterp spec fn fge_bits(a: u64, b: u64) -> bool;

/// The double nearest to the non-negative integer `n`.
pub uninterp spec fn f64_of(n: nat) -> u64;

/// Relies on `rustc_apfloat::ieee::Double::add_r`: IEEE-754 binary64
/// addition, round to nearest, ties to even.
#[verifier::external_body]
pub(crate) fn fadd(a: u64, b: u64) -> (r: u64)
    ensures
        r == fadd_bits(a, b),
{
    let x = Double::from_bits(a as u128);
    let y = Double::from_bits(b as u128);
    x.add_r(y, Round::NearestTiesToEven).value.to_bits() as u64
}

/// Relies on `rustc_apfloat::ieee::Double::sub_r`: IEEE-754 binary64
/// subtraction, round to nearest, ties to even.
#[verifier::external_body]
pub(crate) fn fsub(a: u64, b: u64) -> (r: u64)
    ensures
        r == fsub_bits(a, b),
{
    let x = Double::from_bits(a as u128);
    let y = Double::from_bits(b as u128);
    x.sub_r(y, Round::NearestTiesToEven).value.to_bits() as u64
}

/// Relies on `rustc_apfloat::ieee::Double::mul_r`: IEEE-754 binary64
/// multiplication, round to nearest, ties to even.
#[verifier::external_body]
pub(crate) fn fmul(a: u64, b: u64) -> (r: u64)
    ensures
        r == fmul_bits(a, b),
{
    let x = Double::from_bits(a as u128);
    let y = Double::from_bits(b as u128);
    x.mul_r(y, Round::NearestTiesToEven).value.to_bits() as u64
}

/// Relies on `rustc_apfloat::ieee::Double::div_r`: IEEE-754 binary64
/// division, round to nearest, ties to even.
#[verifier::external_body]
pub(crate) fn fdiv(a: u64, b: u64) -> (r: u64)
    ensures
        r == fdiv_bits(a, b),
{
    let x = Double::from_bits(a as u128);
    let y = Double::from_bits(b as u128);
    x.div_r(y, Round::NearestTiesToEven).value.to_bits() as u64
}

/// Relies on `rustc_apfloat::ieee::Double`'s `Neg` impl: IEEE-754
/// negation, a sign-bit flip.
#[verifier::external_body]
pub(crate) fn fneg(a: u64) -> (r: u64)
    ensures
        r == fneg_bits(a),
{
    let x = Double::from_bits(a as u128);
    (-x).to_bits() as u64
}

/// Relies on `ieee_apsqrt::sqrt_accurate`: the correctly rounded IEEE-754
/// binary64 square root of the given bit pattern, round to nearest, ties
/// to even. Total: zeros, infinities, NaNs and negative inputs are handled
/// up front, and on positive finite inputs the widened Newton iteration
/// converges.
#[verifier::external_body]
pub(crate) fn fsqrt(a: u64) -> (r: u64)
    ensures
        r == fsqrt_bits(a),
{
    ieee_apsqrt::sqrt_accurate(a, Round::NearestTiesToEven).0.value
}

/// Relies on `rustc_apfloat::ieee::Double`'s `PartialOrd` impl: the
/// IEEE-754 quiet comparison, which orders all non-NaN doubles and reports
/// NaN operands as unordered.
#[verifier::external_body]
pub(crate) fn fge(a: u64, b: u64) -> (r: bool)
    ensures
        r == fge_bits(a, b),
{
    let x = Double::from_bits(a as u128);
    let y = Double::from_bits(b as u128);
    match x.partial_cmp(&y) {
        Some(core::cmp::Ordering::Greater) => true,
        Some(core::cmp::Ordering::Equal) => true,
        _ => false,
    }
}

/// Relies on `rustc_apfloat::ieee::Double::from_u128`: round-to-nearest
/// conversion of a non-negative integer to a binary64 double.
#[verifier::external_body]
pub(crate) fn f64_from_int(n: u128) -> (r: u64)
    ensures
        r == f64_of(n as nat),
{
    Double::from_u128(n).value.to_bits() as u64
}

/// The smaller of `a` and `b` under the IEEE ordering; on unordered input
/// the second operand.
pub open spec fn spec_fmin(a: u64, b: u64) -> u64 {
    if fge_bits(b, a) {
        a
    } else {
        b
    }
}

/// Returns the smaller of the doubles `a` and `b`.
pub fn fmin(a: u64, b: u64) -> (r: u64)
    ensures
        r == spec_fmin(a, b),
{
    if fge(b, a) {
        a
    } else {
        b
    }
}

/// The larger of `a` and `b` under the IEEE ordering; on unordered input
/// the second operand.
pub open spec fn spec_fmax(a: u64, b: u64) -> u64 {
    if fge_bits(a, b) {
        a
    } else {
        b
    }
}

/// Returns the larger of the doubles `a` and `b`.
pub fn fmax(a: u64, b: u64) -> (r: u64)
    ensures
        r == spec_fmax(a, b),
{
    if fge(a, b) {
        a
    } else {
        b
    }
}

/// `a` clamped to the inclusive interval from `lo` to `hi`.
pub open spec fn spec_fclamp(a: u64, lo: u64, hi: u64) -> u64 {
    spec_fmin(spec_fmax(a, lo), hi)
}

/// Clamps the double `a` to the inclusive interval from `lo` to `hi`.
pub fn fclamp(a: u64, lo: u64, hi: u64) -> (r: u64)
    ensures
        r == spec_fclamp(a, lo, hi),
{
    fmin(fmax(a, lo), hi)
}

/// `sqrt(a^2 + b^2)` on doubles: the combined uncertainty of two
/// independent Gaussians.
pub open spec fn spec_fhypot(a: u64, b: u64) -> u64 {
    fsqrt_bits(fadd_bits(fmul_bits(a, a), fmul_bits(b, b)))
}

/// Computes `sqrt(a^2 + b^2)` on doubles.
pub fn fhypot(a: u64, b: u64) -> (r: u64)
    ensures
        r == spec_fhypot(a, b),
{
    fsqrt(fadd(fmul(a, a), fmul(b, b)))
}

} // verus!
