//! The raster model: an RGBA pixel of four 8-bit channels, and an image
//! as a row-major grid of pixels with fixed dimensions.

use vstd::prelude::*;

verus! {

/// One RGBA pixel, each channel an 8-bit unsigned integer.
#[derive(Clone, Copy, PartialEq, Eq, Structural, Debug)]
pub struct Pixel {
    pub r: u8,
    pub g: u8,
    pub b: u8,
    pub a: u8,
}

/// The fully transparent black pixel that buffers start from.
pub open spec fn zero_pixel() -> Pixel {
    Pixel { r: 0, g: 0, b: 0, a: 0 }
}

/// A 2D grid of RGBA pixels, stored row-major: the pixel at `(x, y)`
/// lives at index `y * width + x`.
#[derive(Clone, Debug)]
pub struct Image {
    pub width: u32,
    pub height: u32,
    pub pixels: Vec<Pixel>,
}

/// A raster index stays inside the grid.
proof fn lemma_raster_index(w: int, h: int, x: int, y: int)
    by (nonlinear_arith)
    requires
        0 <= x < w,
        0 <= y < h,
    ensures
        0 <= y * w + x < w * h,
{
}

/// Distinct coordinates give distinct raster indices.
proof fn lemma_raster_index_injective(w: int, h: int, x1: int, y1: int, x2: int, y2: int)
    by (nonlinear_arith)
    requires
        0 <= x1 < w,
        0 <= y1 < h,
        0 <= x2 < w,
        0 <= y2 < h,
        y1 * w + x1 == y2 * w + x2,
    ensures
        x1 == x2 && y1 == y2,
{
}

impl Image {
    /// Well-formedness: the pixel store holds exactly one pixel per
    /// coordinate of the `width` by `height` grid.
    pub open spec fn wf(&self) -> bool {
        self.pixels.len() == self.width as int * self.height as int
    }

    /// The pixel at `(x, y)`.
    pub open spec fn pix(&self, x: u32, y: u32) -> Pixel
        recommends
            self.wf(),
            x < self.width,
            y < self.height,
    {
        self.pixels[y as int * self.width as int + x as int]
    }

    /// Builds an image of the given dimensions with every pixel zeroed
    /// (transparent black).
    pub fn zeroed(width: u32, height: u32) -> (img: Image)
        requires
            width as int * height as int <= usize::MAX as int,
        ensures
            img.wf(),
            img.width == width,
            img.height == height,
            forall|x: u32, y: u32| x < width && y < height ==> #[trigger] img.pix(x, y) == zero_pixel(),
    {
        let total: usize = (width as usize) * (height as usize);
        let mut pixels: Vec<Pixel> = Vec::new();
        while pixels.len() < total
            invariant
                pixels.len() <= total,
                forall|i: int| 0 <= i < pixels.len() ==> pixels[i] == zero_pixel(),
            decreases total - pixels.len(),
        {
            pixels.push(Pixel { r: 0, g: 0, b: 0, a: 0 });
        }
        let img = Image { width, height, pixels };
        proof {
            assert forall|x: u32, y: u32| x < width && y < height implies #[trigger] img.pix(x, y)
                == zero_pixel() by {
                lemma_raster_index(width as int, height as int, x as int, y as int);
            }
        }
        img
    }

    /// Builds an image from a flat row-major pixel store, refusing one
    /// whose length does not match the dimensions.
    pub fn from_pixels(width: u32, height: u32, pixels: Vec<Pixel>) -> (r: Option<Image>)
        ensures
            r is Some <==> pixels.len() == width as int * height as int,
            r matches Some(img) ==> img.wf() && img.width == width && img.height == height
                && img.pixels == pixels,
    {
        proof {
            assert((width as int) * (height as int) <= u64::MAX as int) by (nonlinear_arith)
                requires
                    width <= u32::MAX,
                    height <= u32::MAX,
            ;
        }
        let expected: u64 = (width as u64) * (height as u64);
        if pixels.len() as u64 == expected {
            Some(Image { width, height, pixels })
        } else {
            None
        }
    }

    /// Reads the pixel at `(x, y)`.
    pub fn pixel(&self, x: u32, y: u32) -> (p: Pixel)
        requires
            self.wf(),
            x < self.width,
            y < self.height,
        ensures
            p == self.pix(x, y),
    {
        proof {
            lemma_raster_index(self.width as int, self.height as int, x as int, y as int);
        }
        let idx: usize = (y as usize) * (self.width as usize) + (x as usize);
        self.pixels[idx]
    }

    /// Overwrites the pixel at `(x, y)`, leaving every other pixel and
    /// the dimensions unchanged.
    pub fn put_pixel(&mut self, x: u32, y: u32, p: Pixel)
        requires
            old(self).wf(),
            x < old(self).width,
            y < old(self).height,
        ensures
            final(self).wf(),
            final(self).width == old(self).width,
            final(self).height == old(self).height,
            final(self).pix(x, y) == p,
            forall|xi: u32, yi: u32|
                xi < old(self).width && yi < old(self).height && !(xi == x && yi == y)
                    ==> #[trigger] final(self).pix(xi, yi) == old(self).pix(xi, yi),
    {
        proof {
            lemma_raster_index(self.width as int, self.height as int, x as int, y as int);
        }
        let idx: usize = (y as usize) * (self.width as usize) + (x as usize);
        self.pixels[idx] = p;
        proof {
            assert forall|xi: u32, yi: u32|
                xi < old(self).width && yi < old(self).height && !(xi == x && yi == y)
                    implies #[trigger] self.pix(xi, yi) == old(self).pix(xi, yi) by {
                lemma_raster_index(
                    self.width as int,
                    self.height as int,
                    xi as int,
                    yi as int,
                );
                if yi as int * self.width as int + xi as int == y as int * self.width as int
                    + x as int {
                    lemma_raster_index_injective(
                        self.width as int,
                        self.height as int,
                        xi as int,
                        yi as int,
                        x as int,
                        y as int,
                    );
                }
            }
        }
    }
}

} // verus!
