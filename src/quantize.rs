//! Normalised images and their reduction to one dominant colour through
//! color_thief's median-cut palette.
use vstd::prelude::*;
use crate::frame::{swap_color_channels, swapped_channels};

verus! {

/// Palette quality handed to the median cut: sample every second pixel.
pub const PALETTE_QUALITY: u8 = 2;

/// Number of entries asked of the palette.
pub const PALETTE_SIZE: u8 = 10;

/// Largest pixel buffer the quantiser accepts. color_thief samples one
/// pixel in every `4 * quality` and sums weighted histogram counts in `i32`;
/// at quality 2 or more, buffers of this size keep those sums in range.
pub const MAX_IMAGE_BYTES: usize = 0x1000_0000;

/// An RGBA image: `width * height` pixels of four bytes each, no padding.
#[derive(Debug)]
pub struct NormalizedImage {
    pub width: usize,
    pub height: usize,
    pub pixels: Vec<u8>,
}

impl NormalizedImage {
    /// The buffer holds exactly one RGBA quadruple per pixel.
    pub open spec fn wf(&self) -> bool {
        self.pixels@.len() == self.width * self.height * 4
    }
}

/// An 8-bit-per-channel colour.
#[derive(Clone, Copy, Debug, PartialEq, Eq, Structural)]
pub struct RgbColor {
    pub r: u8,
    pub g: u8,
    pub b: u8,
}

/// Why no dominant colour could be found.
#[derive(Clone, Copy, Debug, PartialEq, Eq, Structural)]
pub enum QuantizationError {
    /// The image has no pixels.
    EmptyImage,
    /// The median cut failed on this image.
    PaletteFailed,
    /// The palette came back without entries.
    EmptyPalette,
}

/// The palette that color_thief computes for RGBA `pixels` with the given
/// quality and size, as `(r, g, b)` triples in the crate's order; `None`
/// where it reports an error.
pub uninterp spec fn rgba_palette(pixels: Seq<u8>, quality: u8, max_colors: u8) -> Option<
    Seq<(u8, u8, u8)>,
>;

/// Relies on color_thief::get_palette over RGBA data: a deterministic median
/// cut whose result depends on the pixels, quality and size alone. It asserts
/// `1 <= quality <= 10` and `max_colors > 1`; quality 1 is left out because
/// its `i32` sums can overflow below `MAX_IMAGE_BYTES`. It keeps at most
/// `max_colors` entries.
#[verifier::external_body]
fn palette_of_rgba(pixels: &[u8], quality: u8, max_colors: u8) -> (r: Option<Vec<(u8, u8, u8)>>)
    requires
        2 <= quality <= 10,
        max_colors > 1,
        pixels@.len() <= MAX_IMAGE_BYTES,
    ensures
        match r {
            Some(v) => rgba_palette(pixels@, quality, max_colors) == Some(v@) && v@.len()
                <= max_colors,
            None => rgba_palette(pixels@, quality, max_colors) is None,
        },
{
    color_thief::get_palette(pixels, color_thief::ColorFormat::Rgba, quality, max_colors).ok().map(
        |p| p.into_iter().map(|c| (c.r, c.g, c.b)).collect(),
    )
}

/// The dominant colour of RGBA `pixels`: the first entry of the palette.
pub open spec fn dominant_color_spec(pixels: Seq<u8>) -> Result<RgbColor, QuantizationError> {
    if pixels.len() == 0 {
        Err(QuantizationError::EmptyImage)
    } else {
        match rgba_palette(pixels, PALETTE_QUALITY, PALETTE_SIZE) {
            None => Err(QuantizationError::PaletteFailed),
            Some(p) => if p.len() == 0 {
                Err(QuantizationError::EmptyPalette)
            } else {
                Ok(RgbColor { r: p[0].0, g: p[0].1, b: p[0].2 })
            },
        }
    }
}

/// Wraps an RGBA buffer as an image; `None` unless it holds exactly
/// `width * height` pixels.
pub fn create_image_from_buffer(buffer: Vec<u8>, width: usize, height: usize) -> (r: Option<
    NormalizedImage,
>)
    ensures
        r is Some <==> buffer@.len() == width * height * 4,
        r matches Some(img) ==> img.wf() && img.width == width && img.height == height
            && img.pixels@ == buffer@,
{
    let len: usize = buffer.len();
    match width.checked_mul(height) {
        Some(pixels) => match pixels.checked_mul(4) {
            Some(bytes) => if bytes == len {
                Some(NormalizedImage { width, height, pixels: buffer })
            } else {
                None
            },
            None => None,
        },
        None => {
            assert(buffer@.len() != width * height * 4) by (nonlinear_arith)
                requires
                    width * height > usize::MAX,
                    len <= usize::MAX,
                    len == buffer@.len(),
            ;
            None
        },
    }
}

/// Normalises a captured frame of `width * height` pixels into an RGBA image.
pub fn normalize_frame(buffer: &[u8], width: usize, height: usize) -> (r: NormalizedImage)
    requires
        width * height * 4 <= buffer@.len(),
    ensures
        r.wf(),
        r.width == width,
        r.height == height,
        r.pixels@ == swapped_channels(buffer@, (width * height) as nat),
{
    let pixels = swap_color_channels(buffer, width, height);
    NormalizedImage { width, height, pixels }
}

/// The image's dominant colour: the first entry of its ten-entry palette.
pub fn get_dominant_color(img: &NormalizedImage) -> (r: Result<RgbColor, QuantizationError>)
    requires
        img.pixels@.len() <= MAX_IMAGE_BYTES,
    ensures
        r == dominant_color_spec(img.pixels@),
{
    if img.pixels.len() == 0 {
        return Err(QuantizationError::EmptyImage);
    }
    match palette_of_rgba(img.pixels.as_slice(), PALETTE_QUALITY, PALETTE_SIZE) {
        None => Err(QuantizationError::PaletteFailed),
        Some(palette) => if palette.len() == 0 {
            Err(QuantizationError::EmptyPalette)
        } else {
            let (r, g, b) = palette[0];
            Ok(RgbColor { r, g, b })
        },
    }
}

/// Normalises a captured frame and returns its dominant colour.
pub fn dominant_color_of_frame(buffer: &[u8], width: usize, height: usize) -> (r: Result<
    RgbColor,
    QuantizationError,
>)
    requires
        width * height * 4 <= buffer@.len(),
        width * height * 4 <= MAX_IMAGE_BYTES,
    ensures
        r == dominant_color_spec(swapped_channels(buffer@, (width * height) as nat)),
{
    let img = normalize_frame(buffer, width, height);
    get_dominant_color(&img)
}

/// Quantising depends on the pixels alone: two images with the same pixels
/// have the same dominant colour, so running the quantiser again on an image
/// gives the colour it gave before.
pub proof fn lemma_quantize_deterministic(a: NormalizedImage, b: NormalizedImage)
    requires
        a.pixels@ == b.pixels@,
    ensures
        dominant_color_spec(a.pixels@) == dominant_color_spec(b.pixels@),
{
}

} // verus!
