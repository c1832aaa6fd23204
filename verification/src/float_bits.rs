use vstd::prelude::*;

verus! {

/// Exponent field of an IEEE-754 binary64 bit pattern.
pub const F64_EXPONENT_MASK: u64 = 0x7ff0_0000_0000_0000;

/// Fraction field of an IEEE-754 binary64 bit pattern.
pub const F64_FRACTION_MASK: u64 = 0x000f_ffff_ffff_ffff;

/// Every bit but the sign of an IEEE-754 binary64 bit pattern.
pub const F64_MAGNITUDE_MASK: u64 = 0x7fff_ffff_ffff_ffff;

/// The binary64 value with these bits is a NaN.
pub open spec fn f64_bits_is_nan(bits: u64) -> bool {
    bits & F64_EXPONENT_MASK == F64_EXPONENT_MASK && bits & F64_FRACTION_MASK != 0
}

/// The binary64 value with these bits is +0 or -0.
pub open spec fn f64_bits_is_zero(bits: u64) -> bool {
    bits & F64_MAGNITUDE_MASK == 0
}

/// IEEE-754 `==` on two binary64 values given by their bit patterns: NaN
/// equals nothing, the two zeros are equal, all else compares by bits.
pub open spec fn f64_bits_ieee_eq(left: u64, right: u64) -> bool {
    &&& !f64_bits_is_nan(left)
    &&& !f64_bits_is_nan(right)
    &&& (left == right || (f64_bits_is_zero(left) && f64_bits_is_zero(right)))
}

/// Bitwise identity that also passes IEEE-754 `==`: the same bit pattern,
/// and not a NaN.
pub open spec fn f64_bits_exact(left: u64, right: u64) -> bool {
    left == right && !f64_bits_is_nan(left)
}

/// Optional doubles that are identical by bits and by IEEE-754 `==`.
pub open spec fn opt_f64_bits_exact(left: Option<u64>, right: Option<u64>) -> bool {
    match (left, right) {
        (Some(l), Some(r)) => f64_bits_exact(l, r),
        (None, None) => true,
        _ => false,
    }
}

pub fn f64_bits_nan(bits: u64) -> (nan: bool)
    ensures
        nan == f64_bits_is_nan(bits),
{
    bits & F64_EXPONENT_MASK == F64_EXPONENT_MASK && bits & F64_FRACTION_MASK != 0
}

pub fn f64_bits_ieee_equal(left: u64, right: u64) -> (equal: bool)
    ensures
        equal == f64_bits_ieee_eq(left, right),
{
    !f64_bits_nan(left) && !f64_bits_nan(right) && (left == right || (left & F64_MAGNITUDE_MASK
        == 0 && right & F64_MAGNITUDE_MASK == 0))
}

/// Same bits and, as `==` on the doubles demands, not a NaN.
pub fn f64_bits_identical(left: u64, right: u64) -> (identical: bool)
    ensures
        identical == f64_bits_exact(left, right),
{
    left == right && !f64_bits_nan(left)
}

pub fn opt_f64_bits_identical(left: Option<u64>, right: Option<u64>) -> (identical: bool)
    ensures
        identical == opt_f64_bits_exact(left, right),
{
    match (left, right) {
        (Some(l), Some(r)) => f64_bits_identical(l, r),
        (None, None) => true,
        _ => false,
    }
}

/// Bitwise identity of the same bits implies IEEE-754 equality.
pub proof fn lemma_exact_implies_ieee_eq(left: u64, right: u64)
    requires
        f64_bits_exact(left, right),
    ensures
        f64_bits_ieee_eq(left, right),
{
}

} // verus!
