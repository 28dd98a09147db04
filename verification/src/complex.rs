use vstd::prelude::*;

verus! {

/// A complex value, carried as the raw IEEE 754 single-precision bit
/// patterns of its real and imaginary parts.
///
/// The verified core never interprets these bits as numbers; it only
/// stores and moves them. The arithmetic on them (addition,
/// multiplication, magnitude) is floating point and is performed by the
/// surrounding program, which converts to and from bit patterns at the
/// boundary.
#[derive(Clone, Copy, PartialEq, Eq, Structural, Debug)]
pub struct Complex {
    pub re: u32,
    pub im: u32,
}

impl Complex {
    pub fn new(re: u32, im: u32) -> (r: Complex)
        ensures
            r == (Complex { re, im }),
    {
        Complex { re, im }
    }
}

} // verus!
