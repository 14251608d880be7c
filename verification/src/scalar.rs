use vstd::prelude::*;
use rustc_apfloat::Float;
use rustc_apfloat::FloatConvert;

verus! {

/// Bit pattern of the double-precision value zero.
pub const F64_ZERO_BITS: u64 = 0;

/// Bit pattern of the double-precision value one.
pub const F64_ONE_BITS: u64 = 0x3FF0_0000_0000_0000;

/// Bit pattern of the double-precision basis-drop threshold, 10^-6:
/// a candidate whose orthogonalized residual is not above this norm is
/// dropped from the basis.
pub const BASIS_EPS_BITS: u64 = 0x3EB0_C6F7_A0B5_ED8D;

/// Bit pattern of the double-precision displacement threshold, 10^-9:
/// a displacement whose magnitude is not above it gets the zero direction.
pub const DIRECTION_EPS_BITS: u64 = 0x3E11_2E0B_E826_D695;

/// Bit pattern of the double-precision energy threshold, 10^-12: a total
/// energy not above it yields the all-zero distribution and zero entropy.
pub const ENERGY_EPS_BITS: u64 = 0x3D71_9799_812D_EA11;

/// Bit pattern of the double-precision probability threshold, 10^-9:
/// axis probabilities not above it contribute no entropy.
pub const PROB_EPS_BITS: u64 = 0x3E11_2E0B_E826_D695;

pub uninterp spec fn add_bits(a: u64, b: u64) -> u64;

pub uninterp spec fn sub_bits(a: u64, b: u64) -> u64;

pub uninterp spec fn mul_bits(a: u64, b: u64) -> u64;

pub uninterp spec fn div_bits(a: u64, b: u64) -> u64;

pub uninterp spec fn gt_bits(a: u64, b: u64) -> bool;

pub uninterp spec fn sqrt_bits(a: u64) -> u64;

pub uninterp spec fn log2_bits(a: u64) -> u64;

pub uninterp spec fn widen_bits(a: u32) -> u64;

pub uninterp spec fn sub_single_bits(a: u32, b: u32) -> u32;

/// Relies on rustc_apfloat's IEEE-754 double-precision addition (round to
/// nearest, ties to even), on bit patterns; the sum depends on the operand
/// bits alone.
#[verifier::external_body]
pub fn f64_add(a: u64, b: u64) -> (r: u64)
    ensures
        r == add_bits(a, b),
{
    let x = rustc_apfloat::ieee::Double::from_bits(a as u128);
    let y = rustc_apfloat::ieee::Double::from_bits(b as u128);
    (x + y).value.to_bits() as u64
}

/// Relies on rustc_apfloat's IEEE-754 double-precision subtraction (round
/// to nearest, ties to even), on bit patterns; the difference depends on
/// the operand bits alone.
#[verifier::external_body]
pub fn f64_sub(a: u64, b: u64) -> (r: u64)
    ensures
        r == sub_bits(a, b),
{
    let x = rustc_apfloat::ieee::Double::from_bits(a as u128);
    let y = rustc_apfloat::ieee::Double::from_bits(b as u128);
    (x - y).value.to_bits() as u64
}

/// Relies on rustc_apfloat's IEEE-754 double-precision multiplication
/// (round to nearest, ties to even), on bit patterns; the product depends
/// on the operand bits alone.
#[verifier::external_body]
pub fn f64_mul(a: u64, b: u64) -> (r: u64)
    ensures
        r == mul_bits(a, b),
{
    let x = rustc_apfloat::ieee::Double::from_bits(a as u128);
    let y = rustc_apfloat::ieee::Double::from_bits(b as u128);
    (x * y).value.to_bits() as u64
}

/// Relies on rustc_apfloat's IEEE-754 double-precision division (round to
/// nearest, ties to even), on bit patterns; the quotient depends on the
/// operand bits alone.
#[verifier::external_body]
pub fn f64_div(a: u64, b: u64) -> (r: u64)
    ensures
        r == div_bits(a, b),
{
    let x = rustc_apfloat::ieee::Double::from_bits(a as u128);
    let y = rustc_apfloat::ieee::Double::from_bits(b as u128);
    (x / y).value.to_bits() as u64
}

/// Relies on rustc_apfloat's IEEE-754 double-precision comparison: true
/// exactly when the first operand is ordered strictly above the second
/// (false on unordered operands); it depends on the operand bits alone.
#[verifier::external_body]
pub fn f64_gt(a: u64, b: u64) -> (r: bool)
    ensures
        r == gt_bits(a, b),
{
    let x = rustc_apfloat::ieee::Double::from_bits(a as u128);
    let y = rustc_apfloat::ieee::Double::from_bits(b as u128);
    x > y
}

/// Relies on libm::sqrt, the correctly rounded IEEE-754 double-precision
/// square root; the result depends on the operand bits alone.
#[verifier::external_body]
pub fn f64_sqrt(a: u64) -> (r: u64)
    ensures
        r == sqrt_bits(a),
{
    let x = libm::sqrt(bytemuck::cast(a));
    bytemuck::cast(x)
}

/// Relies on libm::log2, the musl-derived double-precision base-two
/// logarithm; the result depends on the operand bits alone.
#[verifier::external_body]
pub fn f64_log2(a: u64) -> (r: u64)
    ensures
        r == log2_bits(a),
{
    let x = libm::log2(bytemuck::cast(a));
    bytemuck::cast(x)
}

/// Relies on rustc_apfloat's conversion from IEEE-754 single to double
/// precision, which is exact and depends on the operand bits alone.
#[verifier::external_body]
pub fn f32_widen(a: u32) -> (r: u64)
    ensures
        r == widen_bits(a),
{
    let x = rustc_apfloat::ieee::Single::from_bits(a as u128);
    let mut loses_info = false;
    let d: rustc_apfloat::StatusAnd<rustc_apfloat::ieee::Double> = x.convert(&mut loses_info);
    d.value.to_bits() as u64
}

/// Relies on rustc_apfloat's IEEE-754 single-precision subtraction (round
/// to nearest, ties to even), on bit patterns; the difference depends on
/// the operand bits alone.
#[verifier::external_body]
pub fn f32_sub(a: u32, b: u32) -> (r: u32)
    ensures
        r == sub_single_bits(a, b),
{
    let x = rustc_apfloat::ieee::Single::from_bits(a as u128);
    let y = rustc_apfloat::ieee::Single::from_bits(b as u128);
    (x - y).value.to_bits() as u32
}

/// Bit pattern of the absolute value of a double-precision value: IEEE-754
/// absolute value clears the sign bit and changes nothing else.
pub open spec fn abs_bits(a: u64) -> u64 {
    a & 0x7FFF_FFFF_FFFF_FFFF
}

pub fn f64_abs(a: u64) -> (r: u64)
    ensures
        r == abs_bits(a),
{
    a & 0x7FFF_FFFF_FFFF_FFFF
}

} // verus!
