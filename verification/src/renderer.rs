use vstd::prelude::*;

use crate::color::Px;
use crate::config::Args;
use crate::index::{spec_col, spec_row};
use crate::raster::{raster_dims, raster_pixels, render_into, spec_coords, Raster};

verus! {

/// The renderer: a configuration plus the cached image dimensions.
///
/// The per-pixel work — coordinate mapping, the escape iteration, the
/// coloring — is floating point and runs outside this library; the
/// surrounding program hands the finished per-index pixel values back,
/// and `render` assembles them into the output raster under the
/// column-major index convention.
pub struct Renderer {
    pub args: Args,
    pub width: i32,
    pub height: i32,
}

impl Renderer {
    pub fn new(args: Args) -> (r: Renderer)
        ensures
            r.args == args,
            r.width == args.width,
            r.height == args.height,
    {
        let width = args.width;
        let height = args.height;
        Renderer { args, width, height }
    }

    /// Replaces the configuration and the cached dimensions.
    pub fn update_args(&mut self, args: Args)
        ensures
            final(self).args == args,
            final(self).width == args.width,
            final(self).height == args.height,
    {
        self.width = args.width;
        self.height = args.height;
        self.args = args;
    }

    /// Assembles the output raster from one finished pixel value per
    /// linear index: cell (i / height, i % height) of the result holds
    /// the channels of `pixels[i]`.
    pub fn render(&self, pixels: &Vec<Px>) -> (r: Raster)
        requires
            0 < self.width,
            0 < self.height,
            pixels@.len() == (self.width as int) * (self.height as int),
            (self.width as int) * (self.height as int) <= i32::MAX as int,
            (self.width as int) * (self.height as int) * 4 <= usize::MAX as int,
        ensures
            raster_dims(r) == (self.width as u32, self.height as u32),
            raster_pixels(r).dom() == spec_coords(self.width as u32, self.height as u32),
            forall|i: int|
                0 <= i < pixels@.len() ==> #[trigger] raster_pixels(r)[
                    (
                        spec_col(i, self.height as int) as u32,
                        spec_row(i, self.height as int) as u32,
                    )
                ] == pixels@[i].spec_channels(),
    {
        render_into(self.width, self.height, pixels)
    }
}

} // verus!
