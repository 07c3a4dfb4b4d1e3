//! IEEE 754 binary64 scalars, carried as their 64-bit encodings.
//!
//! The library never holds a native floating-point value: a price, a model
//! coefficient or a capital balance is always the `u64` bit pattern of the
//! binary64 number. The arithmetic on those encodings is done by
//! `rustc_apfloat`, a deterministic software implementation of IEEE 754
//! (round to nearest, ties to even — the default binary64 behaviour), behind
//! the trusted wrappers below. Each operation's result is given a name
//! (`f64_add`, `f64_mul`, ...) that the contracts of the rest of the library
//! are stated over.

use vstd::prelude::*;
use rustc_apfloat::Float;
use rustc_apfloat::Round;
use rustc_apfloat::ieee::Double;

verus! {

/// Encoding of positive zero.
pub const F64_ZERO: u64 = 0;

/// Encoding of one.
pub const F64_ONE: u64 = 0x3FF0_0000_0000_0000;

/// Encoding of one hundred.
pub const F64_HUNDRED: u64 = 0x4059_0000_0000_0000;

/// The sign bit of a binary64 encoding.
pub const F64_SIGN_MASK: u64 = 0x8000_0000_0000_0000;

/// The binary64 sum of the two encodings.
pub uninterp spec fn f64_add(a: u64, b: u64) -> u64;

/// The binary64 difference of the two encodings.
pub uninterp spec fn f64_sub(a: u64, b: u64) -> u64;

/// The binary64 product of the two encodings.
pub uninterp spec fn f64_mul(a: u64, b: u64) -> u64;

/// The binary64 quotient of the two encodings.
pub uninterp spec fn f64_div(a: u64, b: u64) -> u64;

/// Whether the first encoding compares strictly below the second in the IEEE
/// partial order (false whenever either operand is a NaN).
pub uninterp spec fn f64_lt(a: u64, b: u64) -> bool;

/// Whether the two encodings compare equal in the IEEE partial order (the two
/// zeroes are equal; a NaN equals nothing).
pub uninterp spec fn f64_eq(a: u64, b: u64) -> bool;

/// The binary64 value nearest to the given integer.
pub uninterp spec fn f64_of_int(n: int) -> u64;

/// IEEE 754 negation flips exactly the sign bit of the encoding.
pub open spec fn f64_neg(a: u64) -> u64 {
    a ^ F64_SIGN_MASK
}

/// Relies on `rustc_apfloat::Float::add_r` on `ieee::Double`: IEEE 754
/// binary64 addition of the two encodings, round to nearest, ties to even;
/// a pure function of its arguments.
#[verifier::external_body]
pub(crate) fn add_bits(a: u64, b: u64) -> (r: u64)
    ensures
        r == f64_add(a, b),
{
    let x = Double::from_bits(a as u128);
    let y = Double::from_bits(b as u128);
    x.add_r(y, Round::NearestTiesToEven).value.to_bits() as u64
}

/// Relies on `rustc_apfloat::Float::sub_r` on `ieee::Double`: IEEE 754
/// binary64 subtraction, round to nearest, ties to even; a pure function of
/// its arguments.
#[verifier::external_body]
pub(crate) fn sub_bits(a: u64, b: u64) -> (r: u64)
    ensures
        r == f64_sub(a, b),
{
    let x = Double::from_bits(a as u128);
    let y = Double::from_bits(b as u128);
    x.sub_r(y, Round::NearestTiesToEven).value.to_bits() as u64
}

/// Relies on `rustc_apfloat::Float::mul_r` on `ieee::Double`: IEEE 754
/// binary64 multiplication, round to nearest, ties to even; a pure function
/// of its arguments. The product of two encodings with clear sign bits has a
/// clear sign bit: the sign of a product is the exclusive or of the operand
/// signs, and the NaN an invalid multiplication yields is the positive quiet
/// NaN (or a quieted operand NaN, whose sign is kept).
#[verifier::external_body]
pub(crate) fn mul_bits(a: u64, b: u64) -> (r: u64)
    ensures
        r == f64_mul(a, b),
        a & F64_SIGN_MASK == 0 && b & F64_SIGN_MASK == 0 ==> r & F64_SIGN_MASK == 0,
{
    let x = Double::from_bits(a as u128);
    let y = Double::from_bits(b as u128);
    x.mul_r(y, Round::NearestTiesToEven).value.to_bits() as u64
}

/// Relies on `rustc_apfloat::Float::div_r` on `ieee::Double`: IEEE 754
/// binary64 division, round to nearest, ties to even; a pure function of its
/// arguments. The quotient of two encodings with clear sign bits has a clear
/// sign bit: the sign of a quotient is the exclusive or of the operand signs,
/// a division by zero yields the infinity of the dividend's sign, and the NaN
/// an invalid division yields is the positive quiet NaN (or a quieted operand
/// NaN, whose sign is kept).
#[verifier::external_body]
pub(crate) fn div_bits(a: u64, b: u64) -> (r: u64)
    ensures
        r == f64_div(a, b),
        a & F64_SIGN_MASK == 0 && b & F64_SIGN_MASK == 0 ==> r & F64_SIGN_MASK == 0,
{
    let x = Double::from_bits(a as u128);
    let y = Double::from_bits(b as u128);
    x.div_r(y, Round::NearestTiesToEven).value.to_bits() as u64
}

/// Relies on `PartialOrd::partial_cmp` for `ieee::Double`: the IEEE partial
/// order on binary64 values. Equal operands (and in particular identical
/// encodings) are never strictly ordered, so the comparison of an encoding
/// with itself returns false.
#[verifier::external_body]
pub(crate) fn lt_bits(a: u64, b: u64) -> (r: bool)
    ensures
        r == f64_lt(a, b),
        a == b ==> !r,
{
    let x = Double::from_bits(a as u128);
    let y = Double::from_bits(b as u128);
    x < y
}

/// Relies on `PartialEq::eq` for `ieee::Double`: IEEE equality of binary64
/// values, under which identical non-NaN encodings are equal and the two
/// zeroes coincide.
#[verifier::external_body]
pub(crate) fn eq_bits(a: u64, b: u64) -> (r: bool)
    ensures
        r == f64_eq(a, b),
{
    let x = Double::from_bits(a as u128);
    let y = Double::from_bits(b as u128);
    x == y
}

/// Relies on `rustc_apfloat::Float::from_u128_r` on `ieee::Double`: the
/// binary64 value nearest to the given integer (ties to even), as `n as f64`
/// rounds; a pure function of its argument.
#[verifier::external_body]
pub(crate) fn usize_to_bits(n: usize) -> (r: u64)
    ensures
        r == f64_of_int(n as int),
{
    Double::from_u128_r(n as u128, Round::NearestTiesToEven).value.to_bits() as u64
}

/// Negation of a binary64 encoding: the sign bit is flipped. This is the one
/// IEEE 754 operation simple enough to state and verify directly.
pub(crate) fn neg_bits(a: u64) -> (r: u64)
    ensures
        r == f64_neg(a),
{
    a ^ F64_SIGN_MASK
}

} // verus!
