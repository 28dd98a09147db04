use vstd::prelude::*;

use crate::bits::{
    finite, positive_finite, spec_finite, spec_positive_finite, spec_unit_interval, unit_interval,
};
use crate::color::Color;
use crate::complex::Complex;

verus! {

/// One render configuration, immutable for the duration of a render.
///
/// The floating-point fields (origin, zoom, sample spread, iteration
/// limit, bail-out threshold, color exponent, set color) are carried as
/// raw IEEE 754 single-precision bit patterns; the surrounding program
/// converts at the boundary. The validity ranges below are checked
/// exactly on those patterns.
#[derive(Clone, Debug)]
pub struct Args {
    /// Image width in pixels.
    pub width: i32,
    /// Image height in pixels.
    pub height: i32,
    /// Tag used by the surrounding program to name the output file.
    pub name: String,
    /// Worker count for the parallel fan-out.
    pub threads: usize,
    /// Center of the view in the complex plane.
    pub origin: Complex,
    /// Magnification; larger means more magnified.
    pub zoom: u32,
    /// Supersampling draws per pixel.
    pub samples: usize,
    /// Divisor of the jitter radius.
    pub sampled: u32,
    /// Iteration cap of the escape loop.
    pub limit: u32,
    /// Squared-magnitude escape radius.
    pub bail: u32,
    /// Exponent that reshapes the hue ramp.
    pub cexp: u32,
    /// Color of points that never escape.
    pub set_color: Color,
}

impl Args {
    /// The ranges a configuration must respect before a render starts:
    /// positive dimensions, at least one worker and one sample, a
    /// positive finite zoom, sample spread, iteration limit and
    /// bail-out (each is used as a divisor or a loop bound), a finite
    /// color exponent and origin, and set-color channels in [0, 1].
    pub open spec fn valid(self) -> bool {
        &&& 0 < self.width
        &&& 0 < self.height
        &&& 1 <= self.threads
        &&& 1 <= self.samples
        &&& spec_positive_finite(self.zoom)
        &&& spec_positive_finite(self.sampled)
        &&& spec_positive_finite(self.limit)
        &&& spec_positive_finite(self.bail)
        &&& spec_finite(self.cexp)
        &&& spec_finite(self.origin.re)
        &&& spec_finite(self.origin.im)
        &&& spec_unit_interval(self.set_color.r)
        &&& spec_unit_interval(self.set_color.g)
        &&& spec_unit_interval(self.set_color.b)
        &&& spec_unit_interval(self.set_color.a)
    }

    /// Checks every range of `valid`. A configuration that fails this
    /// check would divide by zero or iterate without a bound, so the
    /// surrounding program rejects it before rendering.
    pub fn is_valid(&self) -> (r: bool)
        ensures
            r == self.valid(),
    {
        0 < self.width && 0 < self.height && 1 <= self.threads && 1 <= self.samples
            && positive_finite(self.zoom) && positive_finite(self.sampled)
            && positive_finite(self.limit) && positive_finite(self.bail) && finite(self.cexp)
            && finite(self.origin.re) && finite(self.origin.im)
            && unit_interval(self.set_color.r) && unit_interval(self.set_color.g)
            && unit_interval(self.set_color.b) && unit_interval(self.set_color.a)
    }
}

} // verus!
