//! The corrupter: owns the bounds, the read-only source image and the
//! output buffer, and runs the three corruption passes in order. Each
//! pass reads the source image and overwrites the whole buffer; only
//! the last pass's buffer survives.

use crate::brighten::{
    brighten_pixels, lemma_brighten_rgba_zero, spec_brighten, spec_brighten_rgba,
};
use crate::config::Config;
use crate::mapper::{modified_pixel, saturate_to_u32, spec_modified_pixel, spec_saturate_to_u32};
use crate::raster::{zero_pixel, Image, Pixel};
use crate::sampler::{bernoulli, offset_i64, offset_u32};
use vstd::prelude::*;

verus! {

/// The four dimensions of the input image. The minima are always zero;
/// the maxima are the image's width and height.
#[derive(Clone, Copy, PartialEq, Eq, Structural, Debug)]
pub struct Bounds {
    pub x_min: u32,
    pub y_min: u32,
    pub x_max: u32,
    pub y_max: u32,
}

/// The failure of a corruption run.
#[derive(Clone, Copy, PartialEq, Eq, Structural, Debug)]
pub enum CorruptError {
    /// The image has a zero width or height, which leaves the
    /// coordinate mapper's modulo undefined.
    DegenerateBounds,
}

/// One output pixel of the block-dissolve pass: some pair of
/// displacements, folded into bounds by the mapper, selects the source
/// pixel that was copied verbatim.
pub open spec fn dissolve_sample(src: Image, p: Pixel, x: u32, y: u32) -> bool {
    exists|ox: u32, oy: u32|
        p == src.pix(spec_modified_pixel(x, ox, src.width), spec_modified_pixel(y, oy, src.height))
}

/// One output pixel of the scanline-lag pass, given the three lag draws
/// and the shared horizontal offset of that pixel: red and alpha come
/// from the red-lagged column, green from the green-lagged one, blue
/// from the blue-lagged one, all on row `y mod height`, each channel
/// brightened.
pub open spec fn lag_sample(
    src: Image,
    addition: u8,
    x: u32,
    y: u32,
    lr: u32,
    lg: u32,
    lb: u32,
    ox: u32,
) -> Pixel {
    let row = spec_modified_pixel(0, y, src.height);
    let rx = spec_modified_pixel(vstd::wrapping::u32_specs::wrapping_sub(x, lr), ox, src.width);
    let gx = spec_modified_pixel(x, lg, src.width);
    let bx = spec_modified_pixel(vstd::wrapping::u32_specs::wrapping_add(x, lb), ox, src.width);
    Pixel {
        r: spec_brighten(src.pix(rx, row).r, addition),
        g: spec_brighten(src.pix(gx, row).g, addition),
        b: spec_brighten(src.pix(bx, row).b, addition),
        a: spec_brighten(src.pix(rx, row).a, addition),
    }
}

/// One output pixel of the scanline-lag pass: some lag draws and shared
/// offset give it the shape of `lag_sample`.
pub open spec fn lagged(src: Image, addition: u8, p: Pixel, x: u32, y: u32) -> bool {
    exists|lr: u32, lg: u32, lb: u32, ox: u32|
        p == lag_sample(src, addition, x, y, lr, lg, lb, ox)
}

/// One output pixel of the aberration pass under the stage's single
/// shared offset: red, blue and alpha read the shifted column, green
/// the unshifted one, all on row `y mod height`, each channel
/// brightened.
pub open spec fn aberration_sample(src: Image, addition: u8, x: u32, y: u32, ox: u32) -> Pixel {
    let row = spec_modified_pixel(0, y, src.height);
    let shifted = spec_modified_pixel(x, ox, src.width);
    let centered = spec_modified_pixel(0, x, src.width);
    Pixel {
        r: spec_brighten(src.pix(shifted, row).r, addition),
        g: spec_brighten(src.pix(centered, row).g, addition),
        b: spec_brighten(src.pix(shifted, row).b, addition),
        a: spec_brighten(src.pix(shifted, row).a, addition),
    }
}

/// The whole buffer of the aberration pass under one shared offset.
pub open spec fn aberration_pass(src: Image, addition: u8, buf: Image, ox: u32) -> bool {
    forall|x: u32, y: u32|
        x < src.width && y < src.height ==> #[trigger] buf.pix(x, y) == aberration_sample(
            src,
            addition,
            x,
            y,
            ox,
        )
}

/// A configuration under which no pass displaces or recolors anything:
/// the whole pipeline must then reproduce the source image exactly.
pub open spec fn identity_config(cfg: Config) -> bool {
    &&& cfg.magnitude == 0
    &&& cfg.block_offset == 0
    &&& cfg.stride_magnitude == 0
    &&& cfg.lr == 0
    &&& cfg.lg == 0
    &&& cfg.lb == 0
    &&& cfg.std_offset == 0
    &&& cfg.brightness_addition == 0
    &&& cfg.mean_abberation == 0
    &&& cfg.std_abberation == 0
}

/// The state of one corruption run.
#[derive(Debug)]
pub struct Corrupter {
    pub bounds: Bounds,
    pub img: Image,
    pub buffer: Image,
}

impl Corrupter {
    /// Well-formedness: zero minima, positive maxima that match both
    /// the source image's and the buffer's dimensions.
    pub open spec fn wf(&self) -> bool {
        &&& self.bounds.x_min == 0
        &&& self.bounds.y_min == 0
        &&& self.bounds.x_max > 0
        &&& self.bounds.y_max > 0
        &&& self.img.wf()
        &&& self.img.width == self.bounds.x_max
        &&& self.img.height == self.bounds.y_max
        &&& self.buffer.wf()
        &&& self.buffer.width == self.bounds.x_max
        &&& self.buffer.height == self.bounds.y_max
    }

    /// Takes ownership of the source image and sets up a zero-filled
    /// buffer of the same dimensions. An image with a zero width or
    /// height is refused before any pass can divide by it.
    pub fn new(img: Image) -> (r: Result<Corrupter, CorruptError>)
        requires
            img.wf(),
        ensures
            r is Ok <==> img.width > 0 && img.height > 0,
            r matches Ok(c) ==> {
                &&& c.wf()
                &&& c.img == img
                &&& c.bounds == (Bounds {
                    x_min: 0u32,
                    y_min: 0u32,
                    x_max: img.width,
                    y_max: img.height,
                })
                &&& forall|x: u32, y: u32|
                    x < img.width && y < img.height ==> #[trigger] c.buffer.pix(x, y)
                        == zero_pixel()
            },
            r matches Err(e) ==> e == CorruptError::DegenerateBounds,
    {
        if img.width == 0 || img.height == 0 {
            return Err(CorruptError::DegenerateBounds);
        }
        let bounds = Bounds { x_min: 0, y_min: 0, x_max: img.width, y_max: img.height };
        let buffer = Image::zeroed(img.width, img.height);
        Ok(Corrupter { bounds, img, buffer })
    }

    /// First pass: spatial block dissolve. A width-weighted Bernoulli
    /// trial at each pixel opens a new block, redrawing the shared line
    /// offset and stride; every output pixel is copied verbatim from
    /// the source pixel that the accumulated displacements select
    /// through the mapper. With all of this pass's magnitudes zero it
    /// copies the source image unchanged.
    pub fn dissolve_block(&mut self, rng: &mut rand::rngs::StdRng, cfg: &Config)
        requires
            old(self).wf(),
            cfg.block_height <= old(self).bounds.x_max,
        ensures
            final(self).wf(),
            final(self).bounds == old(self).bounds,
            final(self).img == old(self).img,
            forall|x: u32, y: u32|
                x < old(self).bounds.x_max && y < old(self).bounds.y_max ==> dissolve_sample(
                    old(self).img,
                    #[trigger] final(self).buffer.pix(x, y),
                    x,
                    y,
                ),
            cfg.magnitude == 0 && cfg.block_offset == 0 && cfg.stride_magnitude == 0
                ==> forall|x: u32, y: u32|
                x < old(self).bounds.x_max && y < old(self).bounds.y_max
                    ==> #[trigger] final(self).buffer.pix(x, y) == old(self).img.pix(x, y),
    {
        let ghost src = self.img;
        let ghost bnds = self.bounds;
        let ghost calm = cfg.magnitude == 0 && cfg.block_offset == 0 && cfg.stride_magnitude == 0;
        let w = self.bounds.x_max;
        let h = self.bounds.y_max;
        let mut line_offset: i64 = 0;
        let mut stride: u32 = 0;
        let mut yset: u32 = 0;
        let mut x: u32 = 0;
        while x < w
            invariant
                self.bounds == bnds,
                self.img == src,
                src.wf(),
                src.width == w,
                src.height == h,
                w > 0,
                h > 0,
                cfg.block_height <= w,
                self.buffer.wf(),
                self.buffer.width == w,
                self.buffer.height == h,
                x <= w,
                calm == (cfg.magnitude == 0 && cfg.block_offset == 0 && cfg.stride_magnitude
                    == 0),
                calm ==> line_offset == 0 && stride == 0,
                forall|xi: u32, yi: u32|
                    xi < w && yi < h && xi < x ==> dissolve_sample(
                        src,
                        #[trigger] self.buffer.pix(xi, yi),
                        xi,
                        yi,
                    ),
                calm ==> forall|xi: u32, yi: u32|
                    xi < w && yi < h && xi < x ==> #[trigger] self.buffer.pix(xi, yi) == src.pix(
                        xi,
                        yi,
                    ),
            decreases w - x,
        {
            let mut y: u32 = 0;
            while y < h
                invariant
                    self.bounds == bnds,
                    self.img == src,
                    src.wf(),
                    src.width == w,
                    src.height == h,
                    w > 0,
                    h > 0,
                    cfg.block_height <= w,
                    self.buffer.wf(),
                    self.buffer.width == w,
                    self.buffer.height == h,
                    x < w,
                    y <= h,
                    calm == (cfg.magnitude == 0 && cfg.block_offset == 0 && cfg.stride_magnitude
                        == 0),
                    calm ==> line_offset == 0 && stride == 0,
                    forall|xi: u32, yi: u32|
                        xi < w && yi < h && (xi < x || (xi == x && yi < y)) ==> dissolve_sample(
                            src,
                            #[trigger] self.buffer.pix(xi, yi),
                            xi,
                            yi,
                        ),
                    calm ==> forall|xi: u32, yi: u32|
                        xi < w && yi < h && (xi < x || (xi == x && yi < y))
                            ==> #[trigger] self.buffer.pix(xi, yi) == src.pix(xi, yi),
                decreases h - y,
            {
                if bernoulli(rng, cfg.block_height, w) {
                    line_offset = offset_i64(rng, cfg.block_offset as i64);
                    stride = cfg.stride_magnitude;
                    yset = y;
                }
                let stride_offset: i64 = stride.wrapping_mul(y.wrapping_sub(yset)) as i64;
                let offset_x: i64 = offset_i64(rng, cfg.magnitude).wrapping_add(
                    line_offset,
                ).wrapping_add(stride_offset);
                let offset_y: i64 = offset_i64(rng, cfg.magnitude);
                let ox = saturate_to_u32(offset_x);
                let oy = saturate_to_u32(offset_y);
                let sx = modified_pixel(x, ox, w);
                let sy = modified_pixel(y, oy, h);
                let p = self.img.pixel(sx, sy);
                self.buffer.put_pixel(x, y, p);
                proof {
                    assert(p == src.pix(
                        spec_modified_pixel(x, ox, src.width),
                        spec_modified_pixel(y, oy, src.height),
                    ));
                    assert(dissolve_sample(src, self.buffer.pix(x, y), x, y));
                    if calm {
                        assert(self.buffer.pix(x, y) == src.pix(x, y));
                    }
                }
                y = y + 1;
            }
            x = x + 1;
        }
    }

    /// Second pass: channel lag and brightening. At each pixel the
    /// three lags and the shared horizontal offset are redrawn; each
    /// channel is sampled from its lagged column of the source image's
    /// row `y mod height` and brightened. With all lags and the shared
    /// offset zero, every output pixel is exactly the brightened source
    /// pixel.
    pub fn random_brightening(&mut self, rng: &mut rand::rngs::StdRng, cfg: &Config)
        requires
            old(self).wf(),
        ensures
            final(self).wf(),
            final(self).bounds == old(self).bounds,
            final(self).img == old(self).img,
            forall|x: u32, y: u32|
                x < old(self).bounds.x_max && y < old(self).bounds.y_max ==> lagged(
                    old(self).img,
                    cfg.brightness_addition,
                    #[trigger] final(self).buffer.pix(x, y),
                    x,
                    y,
                ),
            cfg.lr == 0 && cfg.lg == 0 && cfg.lb == 0 && cfg.std_offset == 0
                ==> forall|x: u32, y: u32|
                x < old(self).bounds.x_max && y < old(self).bounds.y_max
                    ==> #[trigger] final(self).buffer.pix(x, y) == spec_brighten_rgba(
                    old(self).img.pix(x, y),
                    cfg.brightness_addition,
                ),
    {
        let ghost src = self.img;
        let ghost bnds = self.bounds;
        let ghost calm = cfg.lr == 0 && cfg.lg == 0 && cfg.lb == 0 && cfg.std_offset == 0;
        let w = self.bounds.x_max;
        let h = self.bounds.y_max;
        let addition = cfg.brightness_addition;
        let mut x: u32 = 0;
        while x < w
            invariant
                self.bounds == bnds,
                self.img == src,
                src.wf(),
                src.width == w,
                src.height == h,
                w > 0,
                h > 0,
                self.buffer.wf(),
                self.buffer.width == w,
                self.buffer.height == h,
                x <= w,
                addition == cfg.brightness_addition,
                calm == (cfg.lr == 0 && cfg.lg == 0 && cfg.lb == 0 && cfg.std_offset == 0),
                forall|xi: u32, yi: u32|
                    xi < w && yi < h && xi < x ==> lagged(
                        src,
                        addition,
                        #[trigger] self.buffer.pix(xi, yi),
                        xi,
                        yi,
                    ),
                calm ==> forall|xi: u32, yi: u32|
                    xi < w && yi < h && xi < x ==> #[trigger] self.buffer.pix(xi, yi)
                        == spec_brighten_rgba(src.pix(xi, yi), addition),
            decreases w - x,
        {
            let mut y: u32 = 0;
            while y < h
                invariant
                    self.bounds == bnds,
                    self.img == src,
                    src.wf(),
                    src.width == w,
                    src.height == h,
                    w > 0,
                    h > 0,
                    self.buffer.wf(),
                    self.buffer.width == w,
                    self.buffer.height == h,
                    x < w,
                    y <= h,
                    addition == cfg.brightness_addition,
                    calm == (cfg.lr == 0 && cfg.lg == 0 && cfg.lb == 0 && cfg.std_offset == 0),
                    forall|xi: u32, yi: u32|
                        xi < w && yi < h && (xi < x || (xi == x && yi < y)) ==> lagged(
                            src,
                            addition,
                            #[trigger] self.buffer.pix(xi, yi),
                            xi,
                            yi,
                        ),
                    calm ==> forall|xi: u32, yi: u32|
                        xi < w && yi < h && (xi < x || (xi == x && yi < y))
                            ==> #[trigger] self.buffer.pix(xi, yi) == spec_brighten_rgba(
                            src.pix(xi, yi),
                            addition,
                        ),
                decreases h - y,
            {
                let lr = cfg.lr.wrapping_add(offset_u32(rng, cfg.lr));
                let lg = cfg.lg.wrapping_add(offset_u32(rng, cfg.lg));
                let lb = cfg.lb.wrapping_add(offset_u32(rng, cfg.lb));
                let ox = offset_u32(rng, cfg.std_offset);
                let row = modified_pixel(0, y, h);
                let rx = modified_pixel(x.wrapping_sub(lr), ox, w);
                let gx = modified_pixel(x, lg, w);
                let bx = modified_pixel(x.wrapping_add(lb), ox, w);
                let pr = self.img.pixel(rx, row);
                let pg = self.img.pixel(gx, row);
                let pb = self.img.pixel(bx, row);
                let q = Pixel {
                    r: brighten_pixels(pr.r, addition),
                    g: brighten_pixels(pg.g, addition),
                    b: brighten_pixels(pb.b, addition),
                    a: brighten_pixels(pr.a, addition),
                };
                self.buffer.put_pixel(x, y, q);
                proof {
                    assert(q == lag_sample(src, addition, x, y, lr, lg, lb, ox));
                    assert(lagged(src, addition, self.buffer.pix(x, y), x, y));
                    if calm {
                        assert(self.buffer.pix(x, y) == spec_brighten_rgba(
                            src.pix(x, y),
                            addition,
                        ));
                    }
                }
                y = y + 1;
            }
            x = x + 1;
        }
    }

    /// Third pass: chromatic aberration. One shared offset is drawn
    /// once for the whole pass; red, blue and alpha read the shifted
    /// column, green the unshifted one, and every channel is
    /// brightened. With a zero mean and jitter, every output pixel is
    /// exactly the brightened source pixel.
    pub fn chromatic_abberations(&mut self, rng: &mut rand::rngs::StdRng, cfg: &Config)
        requires
            old(self).wf(),
        ensures
            final(self).wf(),
            final(self).bounds == old(self).bounds,
            final(self).img == old(self).img,
            exists|ox: u32|
                aberration_pass(
                    old(self).img,
                    cfg.brightness_addition,
                    final(self).buffer,
                    ox,
                ),
            cfg.mean_abberation == 0 && cfg.std_abberation == 0 ==> forall|x: u32, y: u32|
                x < old(self).bounds.x_max && y < old(self).bounds.y_max
                    ==> #[trigger] final(self).buffer.pix(x, y) == spec_brighten_rgba(
                    old(self).img.pix(x, y),
                    cfg.brightness_addition,
                ),
    {
        let ghost src = self.img;
        let ghost bnds = self.bounds;
        let ghost calm = cfg.mean_abberation == 0 && cfg.std_abberation == 0;
        let w = self.bounds.x_max;
        let h = self.bounds.y_max;
        let addition = cfg.brightness_addition;
        let ox = cfg.mean_abberation.wrapping_add(offset_u32(rng, cfg.std_abberation));
        let mut x: u32 = 0;
        while x < w
            invariant
                self.bounds == bnds,
                self.img == src,
                src.wf(),
                src.width == w,
                src.height == h,
                w > 0,
                h > 0,
                self.buffer.wf(),
                self.buffer.width == w,
                self.buffer.height == h,
                x <= w,
                addition == cfg.brightness_addition,
                calm == (cfg.mean_abberation == 0 && cfg.std_abberation == 0),
                calm ==> ox == 0,
                forall|xi: u32, yi: u32|
                    xi < w && yi < h && xi < x ==> #[trigger] self.buffer.pix(xi, yi)
                        == aberration_sample(src, addition, xi, yi, ox),
            decreases w - x,
        {
            let mut y: u32 = 0;
            while y < h
                invariant
                    self.bounds == bnds,
                    self.img == src,
                    src.wf(),
                    src.width == w,
                    src.height == h,
                    w > 0,
                    h > 0,
                    self.buffer.wf(),
                    self.buffer.width == w,
                    self.buffer.height == h,
                    x < w,
                    y <= h,
                    addition == cfg.brightness_addition,
                    calm == (cfg.mean_abberation == 0 && cfg.std_abberation == 0),
                    calm ==> ox == 0,
                    forall|xi: u32, yi: u32|
                        xi < w && yi < h && (xi < x || (xi == x && yi < y))
                            ==> #[trigger] self.buffer.pix(xi, yi) == aberration_sample(
                            src,
                            addition,
                            xi,
                            yi,
                            ox,
                        ),
                decreases h - y,
            {
                let row = modified_pixel(0, y, h);
                let sx = modified_pixel(x, ox, w);
                let cx = modified_pixel(0, x, w);
                let ps = self.img.pixel(sx, row);
                let pc = self.img.pixel(cx, row);
                let q = Pixel {
                    r: brighten_pixels(ps.r, addition),
                    g: brighten_pixels(pc.g, addition),
                    b: brighten_pixels(ps.b, addition),
                    a: brighten_pixels(ps.a, addition),
                };
                self.buffer.put_pixel(x, y, q);
                proof {
                    assert(self.buffer.pix(x, y) == aberration_sample(src, addition, x, y, ox));
                }
                y = y + 1;
            }
            x = x + 1;
        }
        proof {
            assert(aberration_pass(src, addition, self.buffer, ox));
            if calm {
                assert forall|xi: u32, yi: u32| xi < w && yi < h
                    implies #[trigger] self.buffer.pix(xi, yi) == spec_brighten_rgba(
                    src.pix(xi, yi),
                    addition,
                ) by {
                    vstd::arithmetic::div_mod::lemma_small_mod(xi as nat, w as nat);
                    vstd::arithmetic::div_mod::lemma_small_mod(yi as nat, h as nat);
                    assert(self.buffer.pix(xi, yi) == aberration_sample(
                        src,
                        addition,
                        xi,
                        yi,
                        0,
                    ));
                }
            }
        }
    }

    /// Runs the three passes in order on one shared random source. The
    /// final buffer is the aberration pass's, read from the untouched
    /// source image; under the identity configuration it equals the
    /// source image at every coordinate.
    pub fn run(&mut self, rng: &mut rand::rngs::StdRng, cfg: &Config)
        requires
            old(self).wf(),
            cfg.block_height <= old(self).bounds.x_max,
        ensures
            final(self).wf(),
            final(self).bounds == old(self).bounds,
            final(self).img == old(self).img,
            exists|ox: u32|
                aberration_pass(
                    old(self).img,
                    cfg.brightness_addition,
                    final(self).buffer,
                    ox,
                ),
            identity_config(*cfg) ==> forall|x: u32, y: u32|
                x < old(self).bounds.x_max && y < old(self).bounds.y_max
                    ==> #[trigger] final(self).buffer.pix(x, y) == old(self).img.pix(x, y),
    {
        self.dissolve_block(rng, cfg);
        self.random_brightening(rng, cfg);
        self.chromatic_abberations(rng, cfg);
        proof {
            if identity_config(*cfg) {
                assert forall|x: u32, y: u32|
                    x < old(self).bounds.x_max && y < old(self).bounds.y_max
                    implies #[trigger] self.buffer.pix(x, y) == old(self).img.pix(x, y) by {
                    lemma_brighten_rgba_zero(old(self).img.pix(x, y));
                }
            }
        }
    }
}

} // verus!
