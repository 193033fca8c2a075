use vstd::prelude::*;
use crate::blend::Pixel;

verus! {

/// The fixed frame size `F`: every sprite sheet is `F` pixels high, and
/// every frame is an `F` by `F` column block of it.  The destination
/// buffer has the same logical size.
pub const FRAME_SIZE: usize = 128;

/// The dimension on which a sprite sheet failed validation.
#[derive(Clone, Copy, Debug, PartialEq, Eq, Structural)]
pub enum Axis {
    Width,
    Height,
}

/// Why a sprite-sheet asset could not be loaded.  Every variant is
/// recoverable: it drives the fallback policy and is never fatal.
#[derive(Clone, Copy, Debug, PartialEq, Eq, Structural)]
pub enum LoadError {
    /// No candidate path for the asset exists on the filesystem.
    AssetNotFound,
    /// The bytes could not be decoded as an image.
    DecodeError,
    /// The decoded image has the wrong height, or a width that is not a
    /// positive multiple of the frame size; the offending value is kept.
    DimensionMismatch { axis: Axis, value: usize },
}

/// What decoding an encoded image yields: `None` if the bytes are not a
/// valid image, otherwise the row-major RGBA pixel data (four bytes per
/// pixel) together with the width and height in pixels.  The result is a
/// function of the encoded bytes alone.
pub uninterp spec fn decoded_rgba(bytes: Seq<u8>) -> Option<(Seq<u8>, usize, usize)>;

/// Relies on image::load_from_memory and image::DynamicImage::to_rgba8:
/// decoding depends on the encoded bytes alone; the decoded image is
/// normalized to four 8-bit channels per pixel, opaque where the source
/// has no alpha channel; and the RGBA buffer holds exactly
/// `width * height * 4` bytes.
#[verifier::external_body]
fn decode_rgba(bytes: &Vec<u8>) -> (r: Option<(Vec<u8>, usize, usize)>)
    ensures
        match r {
            Some((data, w, h)) => {
                &&& decoded_rgba(bytes@) matches Some(d)
                    && data@ == d.0 && w == d.1 && h == d.2
                &&& data@.len() == w * h * 4
            },
            None => decoded_rgba(bytes@) is None,
        },
{
    match image::load_from_memory(bytes) {
        Ok(img) => {
            let rgba = img.to_rgba8();
            let w = rgba.width() as usize;
            let h = rgba.height() as usize;
            Some((rgba.into_raw(), w, h))
        },
        Err(_) => None,
    }
}

/// A validated sprite sheet: a contiguous row-major RGBA pixel buffer
/// whose height is the fixed frame size and whose width is a positive
/// multiple of it.  The quotient is the sheet's native frame count.
pub struct SpriteSheet {
    /// Row-major RGBA bytes, four per pixel.
    pub pixels: Vec<u8>,
    /// Width in pixels.
    pub width: usize,
    /// Height in pixels.
    pub height: usize,
}

impl SpriteSheet {
    /// The sheet's invariant, established by the loader.
    pub open spec fn wf(self) -> bool {
        &&& self.height == FRAME_SIZE
        &&& self.width > 0
        &&& self.width % FRAME_SIZE == 0
        &&& self.pixels@.len() == self.width * self.height * 4
    }

    /// How many frames the sheet holds natively.
    pub open spec fn spec_native_frame_count(self) -> int {
        self.width as int / FRAME_SIZE as int
    }

    /// The pixel at column `x`, row `y` of the sheet.
    pub open spec fn spec_pixel_at(self, x: int, y: int) -> Pixel {
        let i = (y * self.width + x) * 4;
        Pixel {
            r: self.pixels@[i],
            g: self.pixels@[i + 1],
            b: self.pixels@[i + 2],
            a: self.pixels@[i + 3],
        }
    }

    /// How many frames the sheet holds natively: its width divided by
    /// the frame size.
    pub fn native_frame_count(&self) -> (n: usize)
        requires
            self.wf(),
        ensures
            n == self.spec_native_frame_count(),
            n > 0,
    {
        self.width / FRAME_SIZE
    }
}

/// What validating encoded bytes yields: the decoded pixel data with its
/// geometry when the image decodes and has the right shape, otherwise
/// the first error of the validation sequence.
pub open spec fn spec_validate(bytes: Seq<u8>) -> Result<(Seq<u8>, usize, usize), LoadError> {
    match decoded_rgba(bytes) {
        None => Err(LoadError::DecodeError),
        Some(d) => {
            let (px, w, h) = d;
            if h != FRAME_SIZE {
                Err(LoadError::DimensionMismatch { axis: Axis::Height, value: h })
            } else if w == 0 || w % FRAME_SIZE != 0 {
                Err(LoadError::DimensionMismatch { axis: Axis::Width, value: w })
            } else {
                Ok((px, w, h))
            }
        },
    }
}

/// What a whole load attempt yields, where the bytes are absent when no
/// candidate path for the asset exists.
pub open spec fn spec_load_outcome(bytes: Option<Seq<u8>>) -> Result<
    (Seq<u8>, usize, usize),
    LoadError,
> {
    match bytes {
        None => Err(LoadError::AssetNotFound),
        Some(bs) => spec_validate(bs),
    }
}

/// Validate encoded image bytes as a sprite sheet.
///
/// Decoding failure, a height other than the frame size, and a width
/// that is not a positive multiple of the frame size are each rejected
/// with the matching error; a well-formed image yields the sheet with
/// its decoded pixels.
pub fn load_sheet_from_bytes(bytes: &Vec<u8>) -> (r: Result<SpriteSheet, LoadError>)
    ensures
        match spec_validate(bytes@) {
            Ok(d) => {
                let (px, w, h) = d;
                r matches Ok(s) && s.pixels@ == px && s.width == w && s.height == h && s.wf()
            },
            Err(e) => r == Err::<SpriteSheet, LoadError>(e),
        },
{
    match decode_rgba(bytes) {
        None => Err(LoadError::DecodeError),
        Some((data, w, h)) => {
            if h != FRAME_SIZE {
                Err(LoadError::DimensionMismatch { axis: Axis::Height, value: h })
            } else if w == 0 || w % FRAME_SIZE != 0 {
                Err(LoadError::DimensionMismatch { axis: Axis::Width, value: w })
            } else {
                Ok(SpriteSheet { pixels: data, width: w, height: h })
            }
        },
    }
}

} // verus!
