//! In-memory rasters and the black/white brightness threshold transform.

use vstd::prelude::*;

verus! {

/// Brightness cutoff: a pixel whose channel sum `red + green + blue` reaches
/// this value becomes pure white, any other pixel becomes pure black.
pub const THRESHOLD_SUM: u32 = 450;

/// One RGBA color sample, 8 bits per channel.
#[derive(Clone, Copy, Debug, PartialEq, Eq, Structural)]
pub struct Pixel {
    pub r: u8,
    pub g: u8,
    pub b: u8,
    pub a: u8,
}

/// The mathematical value of a raster: its dimensions and its pixels in
/// row-major order (the pixel at column `x` of row `y` sits at `y * width + x`).
pub ghost struct RasterModel {
    pub width: nat,
    pub height: nat,
    pub pixels: Seq<Pixel>,
}

impl RasterModel {
    /// A model is well formed when it holds exactly one pixel per coordinate.
    pub open spec fn wf(self) -> bool {
        self.pixels.len() == self.width * self.height
    }

    /// The pixel at column `x` of row `y`.
    pub open spec fn pixel(self, x: int, y: int) -> Pixel {
        self.pixels[y * self.width + x]
    }
}

/// A 2D grid of RGBA pixels with fixed dimensions, stored row-major.
pub struct Raster {
    pub(crate) width: u32,
    pub(crate) height: u32,
    pub(crate) pixels: Vec<Pixel>,
}

impl View for Raster {
    type V = RasterModel;

    closed spec fn view(&self) -> RasterModel {
        RasterModel { width: self.width as nat, height: self.height as nat, pixels: self.pixels@ }
    }
}

impl Raster {
    /// A raster is well formed when it holds exactly `width * height` pixels.
    pub open spec fn wf(self) -> bool {
        self@.wf()
    }

    /// Builds a raster from its dimensions and its row-major pixels; refuses
    /// a pixel vector whose length does not match the dimensions.
    pub fn from_pixels(width: u32, height: u32, pixels: Vec<Pixel>) -> (r: Option<Raster>)
        ensures
            (r is Some) == (pixels@.len() == width * height),
            r is Some ==> {
                &&& r->0.wf()
                &&& r->0@ == (RasterModel {
                    width: width as nat,
                    height: height as nat,
                    pixels: pixels@,
                })
            },
    {
        let len = pixels.len();
        match (width as usize).checked_mul(height as usize) {
            Some(n) if n == len => Some(Raster { width, height, pixels }),
            _ => None,
        }
    }

    /// The width in pixels.
    pub fn width(&self) -> (w: u32)
        ensures
            w == self@.width,
    {
        self.width
    }

    /// The height in pixels.
    pub fn height(&self) -> (h: u32)
        ensures
            h == self@.height,
    {
        self.height
    }

    /// The pixel at column `x` of row `y`.
    pub fn get(&self, x: u32, y: u32) -> (p: Pixel)
        requires
            self.wf(),
            x < self@.width,
            y < self@.height,
        ensures
            p == self@.pixel(x as int, y as int),
    {
        let len = self.pixels.len();
        proof {
            lemma_row_major_index_in_range(
                self@.width,
                self@.height,
                x as nat,
                y as nat,
            );
        }
        let i: usize = (y as usize) * (self.width as usize) + (x as usize);
        assert(i < len);
        self.pixels[i]
    }
}

/// A row-major index `y * width + x` stays below `width * height` whenever
/// `x < width` and `y < height`.
proof fn lemma_row_major_index_in_range(width: nat, height: nat, x: nat, y: nat)
    requires
        x < width,
        y < height,
    ensures
        y * width + x < width * height,
{
    assert(y * width + x < width * height) by (nonlinear_arith)
        requires
            x < width,
            y < height,
    ;
}

/// What a pixel becomes under the threshold transform: pure white when
/// `r + g + b >= THRESHOLD_SUM`, pure black otherwise, alpha kept.
pub open spec fn threshold_pixel(p: Pixel) -> Pixel {
    if p.r + p.g + p.b >= THRESHOLD_SUM {
        Pixel { r: 255, g: 255, b: 255, a: p.a }
    } else {
        Pixel { r: 0, g: 0, b: 0, a: p.a }
    }
}

/// What a whole raster becomes under the threshold transform: the same
/// dimensions, every pixel thresholded independently.
pub open spec fn threshold_model(m: RasterModel) -> RasterModel {
    RasterModel {
        width: m.width,
        height: m.height,
        pixels: m.pixels.map_values(|p: Pixel| threshold_pixel(p)),
    }
}

/// Produces a fresh raster of the same dimensions where every pixel's RGB
/// channels are forced to pure black or pure white by the brightness cutoff
/// and the alpha channel is carried over unchanged.
pub fn threshold(img: &Raster) -> (out: Raster)
    requires
        img.wf(),
    ensures
        out.wf(),
        out@ == threshold_model(img@),
        out@.width == img@.width,
        out@.height == img@.height,
        forall|i: int|
            0 <= i < img@.pixels.len() ==> out@.pixels[i] == threshold_pixel(#[trigger] img@.pixels[i]),
{
    let n = img.pixels.len();
    let mut pixels: Vec<Pixel> = Vec::new();
    let mut i: usize = 0;
    while i < n
        invariant
            n == img.pixels@.len(),
            i <= n,
            pixels@.len() == i,
            forall|j: int|
                0 <= j < i ==> pixels@[j] == threshold_pixel(#[trigger] img.pixels@[j]),
        decreases n - i,
    {
        let p = img.pixels[i];
        let sum: u32 = p.r as u32 + p.g as u32 + p.b as u32;
        if sum >= THRESHOLD_SUM {
            pixels.push(Pixel { r: 255, g: 255, b: 255, a: p.a });
        } else {
            pixels.push(Pixel { r: 0, g: 0, b: 0, a: p.a });
        }
        i += 1;
    }
    proof {
        assert(pixels@ =~= img.pixels@.map_values(|p: Pixel| threshold_pixel(p)));
    }
    Raster { width: img.width, height: img.height, pixels }
}

/// The threshold transform sends every pixel to pure white or pure black,
/// by the cutoff alone: a channel sum of at least `THRESHOLD_SUM` gives
/// `(255, 255, 255)`, a smaller sum gives `(0, 0, 0)`.
pub proof fn lemma_threshold_pixel_rule(p: Pixel)
    ensures
        p.r + p.g + p.b >= THRESHOLD_SUM ==> threshold_pixel(p).r == 255
            && threshold_pixel(p).g == 255 && threshold_pixel(p).b == 255,
        p.r + p.g + p.b < THRESHOLD_SUM ==> threshold_pixel(p).r == 0
            && threshold_pixel(p).g == 0 && threshold_pixel(p).b == 0,
{
}

/// The threshold transform never touches the alpha channel.
pub proof fn lemma_threshold_pixel_preserves_alpha(p: Pixel)
    ensures
        threshold_pixel(p).a == p.a,
{
}

/// The threshold transform keeps the raster's dimensions, and with them the
/// set of valid pixel coordinates.
pub proof fn lemma_threshold_preserves_dimensions(m: RasterModel)
    ensures
        threshold_model(m).width == m.width,
        threshold_model(m).height == m.height,
        threshold_model(m).pixels.len() == m.pixels.len(),
{
}

/// On a whole raster, the transform preserves every pixel's alpha channel
/// and decides every pixel's RGB channels by the brightness cutoff alone.
pub proof fn lemma_threshold_model_pointwise(m: RasterModel, i: int)
    requires
        0 <= i < m.pixels.len(),
    ensures
        threshold_model(m).pixels[i] == threshold_pixel(m.pixels[i]),
        threshold_model(m).pixels[i].a == m.pixels[i].a,
{
}

} // verus!
