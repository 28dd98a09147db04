use vstd::prelude::*;

verus! {

// Classification of IEEE 754 single-precision bit patterns.
//
// A single-precision value is stored as 1 sign bit, 8 exponent bits and
// 23 fraction bits. Ordering the non-negative patterns as unsigned
// integers orders the values they denote, which lets the ranges a render
// configuration must respect be checked exactly, without any
// floating-point arithmetic:
//   0x0000_0000            +0.0
//   0x0000_0001..0x007F_FFFF  positive subnormals
//   0x0080_0000..0x7F7F_FFFF  positive normals
//   0x7F80_0000            +infinity
//   0x7F80_0001..0x7FFF_FFFF  NaN payloads with clear sign bit
//   0x8000_0000 and above  negative values and the remaining NaNs

/// The bit pattern of +infinity; patterns above it (with the sign bit
/// clear) are NaNs.
pub const INF_BITS: u32 = 0x7F80_0000;

/// The bit pattern of 1.0.
pub const ONE_BITS: u32 = 0x3F80_0000;

/// The pattern denotes a strictly positive finite value (normal or
/// subnormal).
pub open spec fn spec_positive_finite(b: u32) -> bool {
    0 < b && b < INF_BITS
}

/// The pattern denotes a finite value of either sign, or a zero.
pub open spec fn spec_finite(b: u32) -> bool {
    (b & 0x7F80_0000) != 0x7F80_0000
}

/// The pattern denotes a value in the closed interval [0.0, 1.0].
pub open spec fn spec_unit_interval(b: u32) -> bool {
    b <= ONE_BITS
}

/// The pattern denotes a zero: exactly 0x0000_0000 (+0.0) and
/// 0x8000_0000 (-0.0) compare equal to zero.
pub open spec fn spec_is_zero(b: u32) -> bool {
    b == 0u32 || b == 0x8000_0000u32
}

/// Checks that a bit pattern denotes a strictly positive finite value.
pub fn positive_finite(b: u32) -> (r: bool)
    ensures
        r == spec_positive_finite(b),
{
    0 < b && b < INF_BITS
}

/// Checks that a bit pattern denotes a finite value (not an infinity,
/// not a NaN).
pub fn finite(b: u32) -> (r: bool)
    ensures
        r == spec_finite(b),
{
    (b & 0x7F80_0000) != 0x7F80_0000
}

/// Checks that a bit pattern denotes a value in [0.0, 1.0].
pub fn unit_interval(b: u32) -> (r: bool)
    ensures
        r == spec_unit_interval(b),
{
    b <= ONE_BITS
}

/// Checks that a bit pattern denotes a zero of either sign.
pub fn is_zero(b: u32) -> (r: bool)
    ensures
        r == spec_is_zero(b),
{
    b == 0 || b == 0x8000_0000
}

} // verus!
