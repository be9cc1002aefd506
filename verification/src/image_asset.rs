//! Raster data as plain values: RGBA pixel buffers decoded from asset bytes
//! or captured from windows, and single-channel buffers for edge masks.
//!
//! Decoding, resampling and luma conversion are done by the `image` crate
//! behind trusted wrappers; everything that *reads* pixel data afterwards is
//! verified against the names given to those results.

use vstd::prelude::*;

use crate::util::Vec2I;

verus! {

/// One RGBA texel, as uploaded to a texture.
#[derive(Debug, Clone, Copy, PartialEq, Eq, Structural)]
pub struct GLTexPixel {
    pub r: u8,
    pub g: u8,
    pub b: u8,
    pub a: u8,
}

impl Default for GLTexPixel {
    /// Fully transparent black.
    fn default() -> (r: Self)
        ensures
            r == (GLTexPixel { r: 0, g: 0, b: 0, a: 0 }),
    {
        Self { r: 0, g: 0, b: 0, a: 0 }
    }
}

/// A decoded RGBA image: row-major pixels plus its dimensions.
#[derive(Debug, Clone, PartialEq, Eq)]
pub struct ImageAsset {
    pub data: Vec<GLTexPixel>,
    pub dims: Vec2I,
}

impl ImageAsset {
    /// The buffer holds exactly one pixel per cell.
    pub open spec fn wf(self) -> bool {
        &&& self.dims.x >= 0
        &&& self.dims.y >= 0
        &&& self.data@.len() == self.dims.x * self.dims.y
    }

    pub fn pixels(&self) -> (r: &[GLTexPixel])
        ensures
            r@ == self.data@,
    {
        self.data.as_slice()
    }

    pub fn get_dimensions(&self) -> (r: Vec2I)
        ensures
            r == self.dims,
    {
        self.dims
    }

    /// Decode an encoded image (PNG and friends) into an RGBA buffer.
    /// Returns `None` exactly when the bytes are not a decodable image, or
    /// when the decoded sides do not fit the crate's coordinate types.
    ///
    /// Relies on `image::load_from_memory` and
    /// `image::DynamicImage::into_rgba8`: the decoded image is a function of
    /// the bytes alone, and its RGBA buffer holds width times height pixels.
    #[verifier::external_body]
    pub fn decode_bytes(bytes: &[u8]) -> (r: Option<ImageAsset>)
        ensures
            r matches Some(a) ==> {
                &&& a.wf()
                &&& decoded_image_of(bytes@) == Some(
                    (a.dims.x as u32, a.dims.y as u32, a.data@),
                )
            },
            r is None <==> !(decoded_image_of(bytes@) matches Some(d) && d.0 <= 0x7FFF_FFFF && d.1
                <= 0x7FFF_FFFF),
    {
        let img = image::load_from_memory(bytes).ok()?;
        let w = i32::try_from(img.width()).ok()?;
        let h = i32::try_from(img.height()).ok()?;
        let data = img
            .into_rgba8()
            .chunks_exact(4)
            .map(|v| GLTexPixel { r: v[0], g: v[1], b: v[2], a: v[3] })
            .collect();
        Some(ImageAsset { data, dims: Vec2I { x: w, y: h } })
    }
}

/// What `image::load_from_memory` decodes the given bytes to: `None` when
/// the bytes are not a decodable image, else width, height and the
/// row-major RGBA pixels.
pub uninterp spec fn decoded_image_of(bytes: Seq<u8>) -> Option<(u32, u32, Seq<GLTexPixel>)>;

/// What nearest-neighbour resampling of the given row-major pixel grid to
/// the new dimensions yields.
pub uninterp spec fn resized_rgba_of(
    pixels: Seq<GLTexPixel>,
    w: int,
    h: int,
    nw: int,
    nh: int,
) -> Seq<GLTexPixel>;

/// The per-pixel luma bytes of the given row-major RGBA pixels.
pub uninterp spec fn luma_of(pixels: Seq<GLTexPixel>) -> Seq<u8>;

/// A single-channel raster, row-major; a cell is "lit" when its byte is
/// non-zero. Used for the binary edge masks the hiding-spot finder scans.
#[derive(Debug, Clone, PartialEq, Eq)]
pub struct GrayBuf {
    pub width: u32,
    pub height: u32,
    pub data: Vec<u8>,
}

impl GrayBuf {
    /// The buffer holds exactly one byte per cell and its sides are small
    /// enough that coordinate products stay far from overflow.
    pub open spec fn wf(self) -> bool {
        &&& self.data@.len() == self.width * self.height
        &&& self.width <= 0x4000
        &&& self.height <= 0x4000
    }

    /// The cell at `(x, y)` is lit.
    pub open spec fn on(self, x: int, y: int) -> bool {
        self.data@[y * self.width + x] > 0
    }

    /// Executable lit-test for one cell.
    pub fn at_on(&self, x: u32, y: u32) -> (r: bool)
        requires
            self.wf(),
            x < self.width,
            y < self.height,
        ensures
            r == self.on(x as int, y as int),
    {
        proof {
            assert(y * self.width + x < self.width * self.height && y * self.width + x
                < 0x1000_0000) by (nonlinear_arith)
                requires
                    x < self.width,
                    y < self.height,
                    self.width <= 0x4000,
                    self.height <= 0x4000,
            ;
        }
        let idx: usize = (y as usize) * (self.width as usize) + (x as usize);
        self.data[idx] > 0
    }
}

/// Resample an RGBA buffer to the given dimensions with nearest-neighbour
/// filtering.
///
/// Relies on `image::imageops::resize` with `FilterType::Nearest`: the
/// result has exactly the requested dimensions and depends only on the
/// input pixels and the dimensions.
#[verifier::external_body]
pub(crate) fn resize_rgba(img: &ImageAsset, nw: u32, nh: u32) -> (r: ImageAsset)
    requires
        img.wf(),
        1 <= nw <= 0x8000,
        1 <= nh <= 0x8000,
    ensures
        r.wf(),
        r.dims.x == nw as int,
        r.dims.y == nh as int,
        r.data@ == resized_rgba_of(
            img.data@,
            img.dims.x as int,
            img.dims.y as int,
            nw as int,
            nh as int,
        ),
{
    let buf: image::RgbaImage = image::ImageBuffer::from_raw(
        img.dims.x as u32,
        img.dims.y as u32,
        img.data.iter().flat_map(|p| [p.r, p.g, p.b, p.a]).collect(),
    ).unwrap();
    let out = image::imageops::resize(&buf, nw, nh, image::imageops::FilterType::Nearest);
    let data = out
        .chunks_exact(4)
        .map(|v| GLTexPixel { r: v[0], g: v[1], b: v[2], a: v[3] })
        .collect();
    ImageAsset { data, dims: Vec2I { x: nw as i32, y: nh as i32 } }
}

/// Collapse an RGBA buffer to one luma byte per pixel.
///
/// Relies on `image::imageops::grayscale`: the result has the same
/// dimensions as the input and depends only on the input pixels.
#[verifier::external_body]
pub(crate) fn grayscale_rgba(img: &ImageAsset) -> (r: GrayBuf)
    requires
        img.wf(),
        img.dims.x <= 0x4000,
        img.dims.y <= 0x4000,
    ensures
        r.wf(),
        r.width == img.dims.x as int,
        r.height == img.dims.y as int,
        r.data@ == luma_of(img.data@),
{
    let buf: image::RgbaImage = image::ImageBuffer::from_raw(
        img.dims.x as u32,
        img.dims.y as u32,
        img.data.iter().flat_map(|p| [p.r, p.g, p.b, p.a]).collect(),
    ).unwrap();
    let out = image::imageops::grayscale(&buf);
    GrayBuf { width: out.width(), height: out.height(), data: out.into_raw() }
}

} // verus!
