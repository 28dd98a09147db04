use vstd::prelude::*;

use crate::color::Px;
use crate::index::{
    lemma_index_in_range, lemma_index_injective, lemma_index_of_pair, spec_col, spec_row,
    split_index,
};

verus! {

// The output raster.
//
// The raster is the image crate's buffer of 16-bit RGBA pixels, the
// value the surrounding program encodes to a file. Verus refuses the
// buffer's generic declaration (its type parameter is bound by the
// crate's Pixel trait), so the buffer sits in a private field of an
// opaque struct; what it holds is named by `raster_pixels` and
// `raster_dims`, and each operation the library needs is a trusted
// wrapper whose contract says what the image crate's source shows.

/// A width-by-height grid of four-channel 16-bit pixels, backed by the
/// image crate's buffer.
#[verifier::external_body]
pub struct Raster {
    buf: image::ImageBuffer<image::Rgba<u16>, Vec<u16>>,
}

/// The pixels a raster holds, keyed by (x, y), each a (red, green,
/// blue, alpha) quadruple of 16-bit samples.
pub uninterp spec fn raster_pixels(r: Raster) -> Map<(u32, u32), (u16, u16, u16, u16)>;

/// The (width, height) a raster was created with.
pub uninterp spec fn raster_dims(r: Raster) -> (u32, u32);

/// The coordinates a width-by-height raster holds.
pub open spec fn spec_coords(width: u32, height: u32) -> Set<(u32, u32)> {
    Set::new(|p: (u32, u32)| p.0 < width && p.1 < height)
}

/// Where the samples of pixel (x, y) start in the raw sample vector of
/// a raster `width` pixels wide: four samples per pixel, rows first.
pub open spec fn raw_base(width: u32, x: u32, y: u32) -> int {
    4 * ((y as int) * (width as int) + (x as int))
}

impl Raster {
    /// Relies on image::ImageBuffer::new: it makes a buffer of exactly
    /// width * height pixels with every sample zero, and panics only
    /// when the sample count width * height * 4 overflows usize, which
    /// the precondition rules out.
    #[verifier::external_body]
    fn new(width: u32, height: u32) -> (r: Raster)
        requires
            (width as int) * (height as int) * 4 <= usize::MAX as int,
        ensures
            raster_dims(r) == (width, height),
            raster_pixels(r).dom() == spec_coords(width, height),
            forall|x: u32, y: u32|
                x < width && y < height ==> #[trigger] raster_pixels(r)[(x, y)] == (
                0u16,
                0u16,
                0u16,
                0u16,
                ),
    {
        Raster { buf: image::ImageBuffer::new(width, height) }
    }

    /// Relies on image::ImageBuffer::put_pixel: it overwrites the pixel
    /// at (x, y) and leaves every other pixel and the dimensions
    /// unchanged; it panics outside the dimensions, which the
    /// precondition rules out.
    #[verifier::external_body]
    fn put(&mut self, x: u32, y: u32, px: (u16, u16, u16, u16))
        requires
            x < raster_dims(*old(self)).0,
            y < raster_dims(*old(self)).1,
        ensures
            raster_dims(*final(self)) == raster_dims(*old(self)),
            raster_pixels(*final(self)) == raster_pixels(*old(self)).insert((x, y), px),
    {
        self.buf.put_pixel(x, y, image::Rgba([px.0, px.1, px.2, px.3]));
    }

    /// Relies on image::ImageBuffer::get_pixel: it returns the pixel at
    /// (x, y), and panics outside the dimensions, which the
    /// precondition rules out.
    #[verifier::external_body]
    pub fn get(&self, x: u32, y: u32) -> (px: (u16, u16, u16, u16))
        requires
            x < raster_dims(*self).0,
            y < raster_dims(*self).1,
        ensures
            px == raster_pixels(*self)[(x, y)],
    {
        let p = self.buf.get_pixel(x, y);
        (p.0[0], p.0[1], p.0[2], p.0[3])
    }

    /// Relies on image::ImageBuffer::width.
    #[verifier::external_body]
    pub fn width(&self) -> (w: u32)
        ensures
            w == raster_dims(*self).0,
    {
        self.buf.width()
    }

    /// Relies on image::ImageBuffer::height.
    #[verifier::external_body]
    pub fn height(&self) -> (h: u32)
        ensures
            h == raster_dims(*self).1,
    {
        self.buf.height()
    }

    /// Relies on image::ImageBuffer::into_raw and on the buffer's
    /// layout: the samples of pixel (x, y) sit at positions
    /// 4 * (y * width + x) .. 4 * (y * width + x) + 4, in red, green,
    /// blue, alpha order.
    #[verifier::external_body]
    pub fn into_raw(self) -> (v: Vec<u16>)
        ensures
            v@.len() == 4 * (raster_dims(self).0 as int) * (raster_dims(self).1 as int),
            forall|x: u32, y: u32|
                x < raster_dims(self).0 && y < raster_dims(self).1 ==> v@[raw_base(
                    raster_dims(self).0,
                    x,
                    y,
                )] == #[trigger] raster_pixels(self)[(x, y)].0,
            forall|x: u32, y: u32|
                x < raster_dims(self).0 && y < raster_dims(self).1 ==> v@[raw_base(
                    raster_dims(self).0,
                    x,
                    y,
                ) + 1] == #[trigger] raster_pixels(self)[(x, y)].1,
            forall|x: u32, y: u32|
                x < raster_dims(self).0 && y < raster_dims(self).1 ==> v@[raw_base(
                    raster_dims(self).0,
                    x,
                    y,
                ) + 2] == #[trigger] raster_pixels(self)[(x, y)].2,
            forall|x: u32, y: u32|
                x < raster_dims(self).0 && y < raster_dims(self).1 ==> v@[raw_base(
                    raster_dims(self).0,
                    x,
                    y,
                ) + 3] == #[trigger] raster_pixels(self)[(x, y)].3,
    {
        self.buf.into_raw()
    }
}

/// Scatters one finished pixel value per linear index into a fresh
/// width-by-height raster, at the column and row the index names. Every
/// cell of the result is pinned: cell (i / height, i % height) holds
/// the channels of `pixels[i]`.
pub fn render_into(width: i32, height: i32, pixels: &Vec<Px>) -> (r: Raster)
    requires
        0 < width,
        0 < height,
        pixels@.len() == (width as int) * (height as int),
        (width as int) * (height as int) <= i32::MAX as int,
        (width as int) * (height as int) * 4 <= usize::MAX as int,
    ensures
        raster_dims(r) == (width as u32, height as u32),
        raster_pixels(r).dom() == spec_coords(width as u32, height as u32),
        forall|i: int|
            0 <= i < pixels@.len() ==> #[trigger] raster_pixels(r)[
                (
                    spec_col(i, height as int) as u32,
                    spec_row(i, height as int) as u32,
                )
            ] == pixels@[i].spec_channels(),
{
    let total: usize = (width as usize) * (height as usize);
    let mut buf = Raster::new(width as u32, height as u32);
    let mut idx: usize = 0;
    while idx < total
        invariant
            0 < width,
            0 < height,
            idx <= total,
            total == (width as int) * (height as int),
            total <= i32::MAX as int,
            pixels@.len() == total,
            raster_dims(buf) == (width as u32, height as u32),
            raster_pixels(buf).dom() == spec_coords(width as u32, height as u32),
            forall|j: int|
                0 <= j < idx ==> #[trigger] raster_pixels(buf)[
                    (
                        spec_col(j, height as int) as u32,
                        spec_row(j, height as int) as u32,
                    )
                ] == pixels@[j].spec_channels(),
        decreases total - idx,
    {
        let i = idx as i32;
        let (x, y) = split_index(i, height);
        proof {
            lemma_index_in_range(i as int, width as int, height as int);
        }
        // Defensive bound check kept from the pipeline's design; the
        // row a linear index names is always below the height, so this
        // never drops a pixel.
        if y < height {
            let px = pixels[idx].channels();
            buf.put(x as u32, y as u32, px);
        }
        proof {
            assert forall|j: int| 0 <= j < idx implies #[trigger] raster_pixels(buf)[
                (
                    spec_col(j, height as int) as u32,
                    spec_row(j, height as int) as u32,
                )
            ] == pixels@[j].spec_channels() by {
                lemma_index_in_range(j, width as int, height as int);
                if spec_col(j, height as int) == spec_col(i as int, height as int) && spec_row(
                    j,
                    height as int,
                ) == spec_row(i as int, height as int) {
                    lemma_index_injective(j, i as int, height as int);
                }
            }
        }
        idx = idx + 1;
    }
    buf
}

/// The raster is a function of the pixel vector alone. Two rasters the
/// assembly contract pins to the same vector hold exactly the same
/// pixels — so how the vector's entries were produced, by one worker or
/// by many in any order, cannot change the output.
pub proof fn lemma_raster_deterministic(
    a: Raster,
    b: Raster,
    width: u32,
    height: u32,
    pixels: Seq<(u16, u16, u16, u16)>,
)
    requires
        0 < width,
        0 < height,
        pixels.len() == (width as int) * (height as int),
        raster_dims(a) == (width, height),
        raster_dims(b) == (width, height),
        raster_pixels(a).dom() == spec_coords(width, height),
        raster_pixels(b).dom() == spec_coords(width, height),
        forall|i: int|
            0 <= i < pixels.len() ==> #[trigger] raster_pixels(a)[
                (
                    spec_col(i, height as int) as u32,
                    spec_row(i, height as int) as u32,
                )
            ] == pixels[i],
        forall|i: int|
            0 <= i < pixels.len() ==> #[trigger] raster_pixels(b)[
                (
                    spec_col(i, height as int) as u32,
                    spec_row(i, height as int) as u32,
                )
            ] == pixels[i],
    ensures
        raster_pixels(a) == raster_pixels(b),
        raster_dims(a) == raster_dims(b),
{
    assert forall|k: (u32, u32)| raster_pixels(a).dom().contains(k) implies raster_pixels(a)[k]
        == raster_pixels(b)[k] by {
        let x = k.0 as int;
        let y = k.1 as int;
        let i = x * (height as int) + y;
        lemma_index_of_pair(x, y, height as int);
        assert(0 <= i) by {
            vstd::arithmetic::mul::lemma_mul_nonnegative(x, height as int);
        }
        assert(i < pixels.len()) by {
            vstd::arithmetic::mul::lemma_mul_inequality(x + 1, width as int, height as int);
            vstd::arithmetic::mul::lemma_mul_is_distributive_add_other_way(height as int, x, 1);
        }
        assert(spec_col(i, height as int) == x);
        assert(spec_row(i, height as int) == y);
        assert((spec_col(i, height as int) as u32, spec_row(i, height as int) as u32) == k);
        assert(raster_pixels(a)[
            (
                spec_col(i, height as int) as u32,
                spec_row(i, height as int) as u32,
            )
        ] == pixels[i]);
        assert(raster_pixels(b)[
            (
                spec_col(i, height as int) as u32,
                spec_row(i, height as int) as u32,
            )
        ] == pixels[i]);
    }
    assert(raster_pixels(a) =~= raster_pixels(b));
}

} // verus!
