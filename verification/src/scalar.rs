//! Scalar arithmetic on IEEE-754 binary64 bit patterns.
//!
//! A scalar is a `u64` holding the bit pattern of a binary64 value.  Each
//! arithmetic operation rests on a trusted wrapper around the
//! corresponding floating-point operation.  IEEE-754 determines every
//! result bit-exactly except one detail: when an operation produces a NaN,
//! the sign and payload bits of that NaN are not a function of the
//! operands (they may differ between machines and even between two
//! evaluations in one program).  The trusted contracts therefore pin each
//! result only up to NaN identity ([`scalar_matches`]), and a verified
//! normalizer ([`canonize`]) collapses every NaN result to the one quiet
//! NaN [`QNAN_BITS`].  The operations the rest of the library uses —
//! [`fadd`], [`fmul`], [`fdiv`], [`fpow`] and the rest — are verified
//! functions whose results equal the defined spec functions [`add_bits`],
//! [`mul_bits`], [`div_bits`], [`pow_bits`] exactly, on every input.

use std::primitive::f64 as Binary64;
use vstd::prelude::*;

verus! {

/// Bit pattern of `0.0`.
pub const ZERO_BITS: u64 = 0x0000_0000_0000_0000;

/// Bit pattern of `1.0`.
pub const ONE_BITS: u64 = 0x3FF0_0000_0000_0000;

/// Bit pattern of `2.0`.
pub const TWO_BITS: u64 = 0x4000_0000_0000_0000;

/// Bit pattern of `-1.0`.
pub const NEG_ONE_BITS: u64 = 0xBFF0_0000_0000_0000;

/// Bit pattern of Euler's number `e`.
pub const EULER_BITS: u64 = 0x4005_BF0A_8B14_5769;

/// The sign bit.
pub const SIGN_MASK: u64 = 0x8000_0000_0000_0000;

/// Everything but the sign bit.
pub const MAGNITUDE_MASK: u64 = 0x7FFF_FFFF_FFFF_FFFF;

/// Bit pattern of positive infinity.
pub const INF_BITS: u64 = 0x7FF0_0000_0000_0000;

/// The canonical quiet NaN: every NaN an operation produces is normalized
/// to this pattern before the library holds it.
pub const QNAN_BITS: u64 = 0x7FF8_0000_0000_0000;

/// Whether a bit pattern encodes a NaN: the exponent is all ones and the
/// mantissa is not zero, that is, the magnitude lies above infinity's.
pub open spec fn is_nan_bits(a: u64) -> bool {
    (a & MAGNITUDE_MASK) > INF_BITS
}

/// A bit pattern with any NaN replaced by the canonical quiet NaN.
pub open spec fn canon_bits(a: u64) -> u64 {
    if is_nan_bits(a) {
        QNAN_BITS
    } else {
        a
    }
}

/// What IEEE-754 promises of an operation's result `r` against one fixed
/// representative `s` of it: the two are equal, except that a NaN result
/// may carry any sign and payload, so NaNs match any NaN.
pub open spec fn scalar_matches(r: u64, s: u64) -> bool {
    r == s || (is_nan_bits(r) && is_nan_bits(s))
}

/// One fixed representative of the IEEE-754 sum of two scalars.
pub uninterp spec fn ieee_add(a: u64, b: u64) -> u64;

/// One fixed representative of the IEEE-754 product of two scalars.
pub uninterp spec fn ieee_mul(a: u64, b: u64) -> u64;

/// One fixed representative of the IEEE-754 quotient of two scalars.
pub uninterp spec fn ieee_div(a: u64, b: u64) -> u64;

/// One fixed representative of `libm`'s binary64 power function.
pub uninterp spec fn libm_pow(a: u64, e: u64) -> u64;

/// The decimal rendering of a scalar, as `Display` prints it.
pub uninterp spec fn decimal_of(a: u64) -> Seq<char>;

/// The four-decimal rendering of a scalar, as `{:.4}` prints it.
pub uninterp spec fn decimal4_of(a: u64) -> Seq<char>;

/// The library's sum: the IEEE-754 sum, NaN normalized.
pub open spec fn add_bits(a: u64, b: u64) -> u64 {
    canon_bits(ieee_add(a, b))
}

/// The library's product: the IEEE-754 product, NaN normalized.
pub open spec fn mul_bits(a: u64, b: u64) -> u64 {
    canon_bits(ieee_mul(a, b))
}

/// The library's quotient: the IEEE-754 quotient, NaN normalized.
pub open spec fn div_bits(a: u64, b: u64) -> u64 {
    canon_bits(ieee_div(a, b))
}

/// The library's power: `libm`'s power, NaN normalized.
pub open spec fn pow_bits(a: u64, e: u64) -> u64 {
    canon_bits(libm_pow(a, e))
}

/// The library's negation.  IEEE-754 negation is exactly a sign-bit flip,
/// NaN payloads included, so it is defined outright rather than named.
pub open spec fn neg_bits(a: u64) -> u64 {
    a ^ SIGN_MASK
}

/// The library's difference.  IEEE-754 defines subtraction as the addition
/// of the negated second operand, so the difference is defined that way
/// rather than named separately.
pub open spec fn sub_bits(a: u64, b: u64) -> u64 {
    add_bits(a, neg_bits(b))
}

/// Relies on `f64` addition: IEEE-754 binary64 addition, rounding to
/// nearest with ties to even, determines the result's bit pattern exactly,
/// except that a NaN result may carry any sign and payload.
#[verifier::external_body]
fn raw_add(a: u64, b: u64) -> (r: u64)
    ensures
        scalar_matches(r, ieee_add(a, b)),
{
    (Binary64::from_bits(a) + Binary64::from_bits(b)).to_bits()
}

/// Relies on `f64` multiplication: IEEE-754 binary64 multiplication,
/// rounding to nearest with ties to even, determines the result's bit
/// pattern exactly, except that a NaN result may carry any sign and
/// payload.
#[verifier::external_body]
fn raw_mul(a: u64, b: u64) -> (r: u64)
    ensures
        scalar_matches(r, ieee_mul(a, b)),
{
    (Binary64::from_bits(a) * Binary64::from_bits(b)).to_bits()
}

/// Relies on `f64` division: IEEE-754 binary64 division, rounding to
/// nearest with ties to even, determines the result's bit pattern exactly,
/// except that a NaN result may carry any sign and payload.
#[verifier::external_body]
fn raw_div(a: u64, b: u64) -> (r: u64)
    ensures
        scalar_matches(r, ieee_div(a, b)),
{
    (Binary64::from_bits(a) / Binary64::from_bits(b)).to_bits()
}

/// Relies on `libm::pow`: a pure-Rust binary64 power function whose result
/// is a function of the two argument bit patterns, except that its NaN
/// results come from NaN-producing arithmetic and may carry any sign and
/// payload.
#[verifier::external_body]
fn raw_pow(a: u64, e: u64) -> (r: u64)
    ensures
        scalar_matches(r, libm_pow(a, e)),
{
    libm::pow(Binary64::from_bits(a), Binary64::from_bits(e)).to_bits()
}

/// Normalizes any NaN to the canonical quiet NaN.
fn canonize(a: u64) -> (r: u64)
    ensures
        r == canon_bits(a),
{
    if (a & MAGNITUDE_MASK) > INF_BITS {
        QNAN_BITS
    } else {
        a
    }
}

/// The library's sum of two scalars.
pub(crate) fn fadd(a: u64, b: u64) -> (r: u64)
    ensures
        r == add_bits(a, b),
{
    let raw = raw_add(a, b);
    canonize(raw)
}

/// The library's product of two scalars.
pub(crate) fn fmul(a: u64, b: u64) -> (r: u64)
    ensures
        r == mul_bits(a, b),
{
    let raw = raw_mul(a, b);
    canonize(raw)
}

/// The library's quotient of two scalars.
pub(crate) fn fdiv(a: u64, b: u64) -> (r: u64)
    ensures
        r == div_bits(a, b),
{
    let raw = raw_div(a, b);
    canonize(raw)
}

/// The library's power of a scalar to a scalar.
pub(crate) fn fpow(a: u64, e: u64) -> (r: u64)
    ensures
        r == pow_bits(a, e),
{
    let raw = raw_pow(a, e);
    canonize(raw)
}

/// The library's negation of a scalar: the sign-bit flip.
pub(crate) fn fneg(a: u64) -> (r: u64)
    ensures
        r == neg_bits(a),
{
    a ^ SIGN_MASK
}

/// The library's difference of two scalars: the sum with the second
/// operand negated, which is IEEE-754 subtraction.
pub(crate) fn fsub(a: u64, b: u64) -> (r: u64)
    ensures
        r == sub_bits(a, b),
{
    let negated = fneg(b);
    fadd(a, negated)
}

/// Relies on `f64`'s `Display` implementation: the shortest decimal string
/// that rounds back to the value, a function of the bit pattern alone.
#[verifier::external_body]
pub(crate) fn fshow(a: u64) -> (r: String)
    ensures
        r@ == decimal_of(a),
{
    format!("{}", Binary64::from_bits(a))
}

/// Relies on `f64`'s `Display` implementation with a fixed precision of
/// four decimal places, a function of the bit pattern alone.
#[verifier::external_body]
pub(crate) fn fshow4(a: u64) -> (r: String)
    ensures
        r@ == decimal4_of(a),
{
    format!("{:.4}", Binary64::from_bits(a))
}

} // verus!
