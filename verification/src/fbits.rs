//! Scalar floating-point primitives over IEEE 754 bit patterns.
//!
//! Verified code in this crate never holds a floating-point value directly:
//! every scalar travels as the `u64` bit pattern of a double-precision IEEE
//! 754 number.  Arithmetic on those numbers is a deterministic function of
//! the operands' bit patterns, so each operation is given an uninterpreted
//! name, and a trusted wrapper relates the executable operation to that
//! name.  Structural tests on a number -- finiteness, and comparison of its
//! magnitude against the singular-value cutoff -- need no arithmetic at all:
//! they are decided by verified bit manipulation in this module.
//!
//! The wrappers rebuild a double from its bit pattern through `safe_arch`'s
//! bit-preserving vector casts, which reinterpret a `u64` lane as a
//! double-precision lane without changing any bit.

use vstd::prelude::*;

use safe_arch::cast_to_m128d_from_m128i;
use safe_arch::get_f64_from_m128d_s;
use safe_arch::m128i;

verus! {

/// Bit pattern of the double-precision number one.
pub const ONE_BITS: u64 = 0x3FF0_0000_0000_0000;

/// Bit pattern of the double-precision number zero.
pub const ZERO_BITS: u64 = 0;

/// Bit pattern of the singular-value cutoff, 10^-10.
///
/// A singular value whose magnitude lies strictly below this tolerance is
/// treated as exactly zero when the pseudo-inverse is formed.  The cutoff
/// is an absolute threshold, not scaled by the largest singular value; that
/// choice is deliberate and part of the solver's documented behaviour.
pub const TOL_BITS: u64 = 0x3DDB_7CDF_D9D7_BDBB;

/// Mask clearing the sign bit of a double-precision bit pattern; what
/// remains is the bit pattern of the absolute value.
pub const ABS_MASK: u64 = 0x7FFF_FFFF_FFFF_FFFF;

/// The exponent field of a double-precision bit pattern.  Infinities and
/// NaNs are exactly the patterns whose exponent field is all ones.
pub const EXP_MASK: u64 = 0x7FF0_0000_0000_0000;

/// Whether the bit pattern denotes a finite number (neither an infinity nor
/// a NaN): finite patterns are those whose exponent field is not all ones.
pub open spec fn finite_bits(b: u64) -> bool {
    b & EXP_MASK != EXP_MASK
}

/// Whether the magnitude of the number with bit pattern `b` lies strictly
/// below the singular-value cutoff.
///
/// Clearing the sign bit yields the bit pattern of the absolute value, and
/// on non-negative patterns the IEEE 754 order coincides with the unsigned
/// integer order of the patterns, so one integer comparison decides
/// `|value| < cutoff`.  A NaN magnitude has a pattern above the exponent
/// mask, hence never counts as below the cutoff, exactly as the
/// floating-point comparison would decide.
pub open spec fn below_tol(b: u64) -> bool {
    b & ABS_MASK < TOL_BITS
}

/// The bit pattern of the sum of the two double-precision numbers with the
/// given bit patterns.  Only applied to finite operands, for which IEEE
/// 754 determines the result completely.
pub uninterp spec fn add_bits(a: u64, b: u64) -> u64;

/// The bit pattern of the product of the two double-precision numbers with
/// the given bit patterns.  Only applied to finite operands, for which
/// IEEE 754 determines the result completely.
pub uninterp spec fn mul_bits(a: u64, b: u64) -> u64;

/// The bit pattern of the quotient of the two double-precision numbers
/// with the given bit patterns.  Only applied to finite operands that are
/// not both zero, for which IEEE 754 determines the result completely.
pub uninterp spec fn div_bits(a: u64, b: u64) -> u64;

/// The sum of two bit patterns where that sum is determined: two finite
/// operands never produce a NaN (at worst the sum overflows to an
/// infinity), so the result is a function of the operands.  A NaN result's
/// bit pattern is not fixed by the language, so no name is given to it:
/// any other operands yield `None`.
pub open spec fn add_ck(a: u64, b: u64) -> Option<u64> {
    if finite_bits(a) && finite_bits(b) {
        Some(add_bits(a, b))
    } else {
        None
    }
}

/// The product of two bit patterns where that product is determined, as
/// [`add_ck`] is for the sum.
pub open spec fn mul_ck(a: u64, b: u64) -> Option<u64> {
    if finite_bits(a) && finite_bits(b) {
        Some(mul_bits(a, b))
    } else {
        None
    }
}

/// The bit pattern of one is finite and is not a zero.
pub(crate) proof fn lemma_one_bits_wf()
    ensures
        finite_bits(ONE_BITS),
        ONE_BITS & ABS_MASK != 0,
{
    assert(0x3FF0_0000_0000_0000u64 & 0x7FF0_0000_0000_0000u64
        != 0x7FF0_0000_0000_0000u64) by (bit_vector);
    assert(0x3FF0_0000_0000_0000u64 & 0x7FFF_FFFF_FFFF_FFFFu64 != 0u64) by (bit_vector);
}

/// Relies on the `+` operator of the double-precision scalar type: IEEE 754
/// addition, which never panics.  Finite operands are required: their sum
/// is then fully determined by IEEE 754 (overflow yields an infinity); a
/// NaN result, whose sign and payload bits the language does not fix,
/// cannot arise.  The operands are rebuilt from their bit patterns by
/// `safe_arch`'s bit-preserving casts.
#[verifier::external_body]
pub(crate) fn f_add(a: u64, b: u64) -> (r: u64)
    requires
        finite_bits(a),
        finite_bits(b),
    ensures
        r == add_bits(a, b),
{
    let x = get_f64_from_m128d_s(cast_to_m128d_from_m128i(m128i::from([a, 0_u64])));
    let y = get_f64_from_m128d_s(cast_to_m128d_from_m128i(m128i::from([b, 0_u64])));
    (x + y).to_bits()
}

/// Relies on the `*` operator of the double-precision scalar type: IEEE 754
/// multiplication, which never panics.  Finite operands are required:
/// their product is then fully determined by IEEE 754 (overflow yields an
/// infinity); a NaN result, whose sign and payload bits the language does
/// not fix, cannot arise.  The operands are rebuilt from their bit
/// patterns by `safe_arch`'s bit-preserving casts.
#[verifier::external_body]
pub(crate) fn f_mul(a: u64, b: u64) -> (r: u64)
    requires
        finite_bits(a),
        finite_bits(b),
    ensures
        r == mul_bits(a, b),
{
    let x = get_f64_from_m128d_s(cast_to_m128d_from_m128i(m128i::from([a, 0_u64])));
    let y = get_f64_from_m128d_s(cast_to_m128d_from_m128i(m128i::from([b, 0_u64])));
    (x * y).to_bits()
}

/// Relies on the `/` operator of the double-precision scalar type: IEEE 754
/// division, which never panics (division by zero yields an infinity, not
/// a trap).  Finite operands not both zero are required: the quotient is
/// then fully determined by IEEE 754; zero over zero, the one finite case
/// whose NaN result the language does not fix bit for bit, cannot arise.
/// The operands are rebuilt from their bit patterns by `safe_arch`'s
/// bit-preserving casts.
#[verifier::external_body]
pub(crate) fn f_div(a: u64, b: u64) -> (r: u64)
    requires
        finite_bits(a),
        finite_bits(b),
        a & ABS_MASK != 0 || b & ABS_MASK != 0,
    ensures
        r == div_bits(a, b),
{
    let x = get_f64_from_m128d_s(cast_to_m128d_from_m128i(m128i::from([a, 0_u64])));
    let y = get_f64_from_m128d_s(cast_to_m128d_from_m128i(m128i::from([b, 0_u64])));
    (x / y).to_bits()
}

/// Adds two bit patterns where the sum is determined, and reports the
/// operands whose sum would be a NaN of unspecified bits instead of
/// computing with them.
pub(crate) fn f_add_ck(a: u64, b: u64) -> (r: Option<u64>)
    ensures
        r == add_ck(a, b),
{
    if (a & EXP_MASK) != EXP_MASK && (b & EXP_MASK) != EXP_MASK {
        Some(f_add(a, b))
    } else {
        None
    }
}

/// Multiplies two bit patterns where the product is determined, as
/// [`f_add_ck`] does for the sum.
pub(crate) fn f_mul_ck(a: u64, b: u64) -> (r: Option<u64>)
    ensures
        r == mul_ck(a, b),
{
    if (a & EXP_MASK) != EXP_MASK && (b & EXP_MASK) != EXP_MASK {
        Some(f_mul(a, b))
    } else {
        None
    }
}

} // verus!
