//! The numeric model: IEEE-754 binary64 values as raw bit patterns.
//!
//! A component value is carried as the 64 bits of a double-precision float.
//! The spec functions below say what ordering those bits denote: every
//! non-NaN pattern is mapped to an integer key that orders patterns exactly
//! as the IEEE comparison predicates order the values they encode (negative
//! values below positive ones, the two zeros sharing one key, the infinities
//! at the extremes), while NaN patterns compare as neither less, equal nor
//! greater. The executable comparisons are proved to follow that model.

use vstd::prelude::*;

verus! {

/// Mask of the sign bit of a binary64 pattern.
pub const SIGN_MASK: u64 = 0x8000_0000_0000_0000;

/// Mask of the exponent and fraction bits of a binary64 pattern.
pub const MAGNITUDE_MASK: u64 = 0x7FFF_FFFF_FFFF_FFFF;

/// Exponent and fraction bits of positive infinity; any strictly larger
/// magnitude encodes a NaN.
pub const INF_MAGNITUDE: u64 = 0x7FF0_0000_0000_0000;

/// The exponent and fraction bits of a pattern, which order values of equal
/// sign by absolute value.
pub open spec fn magnitude(bits: u64) -> u64 {
    bits & MAGNITUDE_MASK
}

/// Whether the sign bit of the pattern is set.
pub open spec fn sign_bit(bits: u64) -> bool {
    bits & SIGN_MASK != 0
}

/// Whether the pattern encodes a NaN, which compares as neither less than,
/// equal to, nor greater than anything.
pub open spec fn is_nan(bits: u64) -> bool {
    magnitude(bits) > INF_MAGNITUDE
}

/// Whether the pattern encodes a zero (either sign).
pub open spec fn is_zero(bits: u64) -> bool {
    magnitude(bits) == 0
}

/// The ordering key of a non-NaN pattern: patterns compare exactly as their
/// keys do. Both zeros share key 0.
pub open spec fn key(bits: u64) -> int {
    if sign_bit(bits) {
        -(magnitude(bits) as int)
    } else {
        magnitude(bits) as int
    }
}

/// The strict `<` of the encoded values: false whenever either side is NaN.
pub open spec fn lt(a: u64, b: u64) -> bool {
    &&& !is_nan(a)
    &&& !is_nan(b)
    &&& key(a) < key(b)
}

/// The `==` of the encoded values: false whenever either side is NaN, true
/// for the two zeros.
pub open spec fn same_value(a: u64, b: u64) -> bool {
    &&& !is_nan(a)
    &&& !is_nan(b)
    &&& key(a) == key(b)
}

/// The non-strict `<=` of the encoded values: false whenever either side is
/// NaN.
pub open spec fn le(a: u64, b: u64) -> bool {
    lt(a, b) || same_value(a, b)
}

/// Strict `<` on two bit patterns, following the IEEE ordering of the values
/// they encode.
pub fn f64_lt(a: u64, b: u64) -> (r: bool)
    ensures
        r == lt(a, b),
{
    let ma: u64 = a & MAGNITUDE_MASK;
    let mb: u64 = b & MAGNITUDE_MASK;
    if ma > INF_MAGNITUDE || mb > INF_MAGNITUDE {
        false
    } else {
        let neg_a: bool = a & SIGN_MASK != 0;
        let neg_b: bool = b & SIGN_MASK != 0;
        if neg_a && neg_b {
            mb < ma
        } else if neg_a && !neg_b {
            ma > 0 || mb > 0
        } else if !neg_a && !neg_b {
            ma < mb
        } else {
            false
        }
    }
}

/// `==` on two bit patterns, following the IEEE equality of the values they
/// encode: the two zeros are equal, NaN equals nothing.
pub fn f64_same_value(a: u64, b: u64) -> (r: bool)
    ensures
        r == same_value(a, b),
{
    let ma: u64 = a & MAGNITUDE_MASK;
    let mb: u64 = b & MAGNITUDE_MASK;
    if ma > INF_MAGNITUDE || mb > INF_MAGNITUDE {
        false
    } else if ma == 0 && mb == 0 {
        true
    } else {
        proof {
            assert((a & 0x7FFF_FFFF_FFFF_FFFFu64 == b & 0x7FFF_FFFF_FFFF_FFFFu64 && ((a
                & 0x8000_0000_0000_0000u64 == 0) <==> (b & 0x8000_0000_0000_0000u64 == 0)) ==> a
                == b)) by (bit_vector);
        }
        a == b
    }
}

/// Whether the pattern encodes a zero of either sign.
pub fn f64_is_zero(bits: u64) -> (r: bool)
    ensures
        r == is_zero(bits),
{
    bits & MAGNITUDE_MASK == 0
}

} // verus!
