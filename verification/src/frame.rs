//! Frames as the monitor sees them: an RGB pixel grid captured by the camera,
//! and its luminance-only derivation that detection runs on.

use vstd::prelude::*;

verus! {

/// The luminance bytes that the image library derives from a run of RGB pixel
/// bytes: one byte per three, a function of the pixel bytes alone.
pub uninterp spec fn luma_of(pixels: Seq<u8>) -> Seq<u8>;

/// A still color frame: `width * height` pixels, three bytes (red, green,
/// blue) per pixel, rows first. Both dimensions are at least one.
#[derive(Debug, Clone)]
pub struct Frame {
    pub width: u32,
    pub height: u32,
    pub pixels: Vec<u8>,
}

impl Frame {
    /// The pixel buffer holds exactly the grid the dimensions announce.
    pub open spec fn wf(self) -> bool {
        &&& self.width >= 1
        &&& self.height >= 1
        &&& self.pixels@.len() == 3 * (self.width as int) * (self.height as int)
    }

    /// Build a frame from raw RGB bytes; refused exactly when a dimension is
    /// zero or the buffer does not hold three bytes per pixel.
    pub fn new(width: u32, height: u32, pixels: Vec<u8>) -> (frame: Option<Frame>)
        ensures
            match frame {
                Some(f) => f.wf() && f.width == width && f.height == height && f.pixels@
                    == pixels@,
                None => !(width >= 1 && height >= 1 && pixels@.len() == 3 * (width as int) * (
                height as int)),
            },
    {
        let w: u128 = width as u128;
        let h: u128 = height as u128;
        proof {
            assert((3u128 * (width as u128)) * (height as u128) < 0x1_0000_0000_0000_0000_0000u128)
                by (nonlinear_arith)
                requires
                    width as u128 <= 0xffff_ffffu128,
                    height as u128 <= 0xffff_ffffu128,
            ;
        }
        if width >= 1 && height >= 1 && (pixels.len() as u128) == 3u128 * w * h {
            Some(Frame { width, height, pixels })
        } else {
            None
        }
    }

    /// The luminance-only derivation of this frame, same dimensions.
    pub fn to_gray(&self) -> (gray: GrayFrame)
        requires
            self.wf(),
        ensures
            gray.wf(),
            gray.width == self.width,
            gray.height == self.height,
            gray.pixels@ == luma_of(self.pixels@),
    {
        let luma = rgb_to_luma(self);
        proof {
            let w = self.width as int;
            let h = self.height as int;
            assert((3 * w) * h == 3 * (w * h)) by (nonlinear_arith);
            assert(3 * (luma@.len() as int) == 3 * (w * h));
            assert(luma@.len() as int == w * h);
        }
        GrayFrame { width: self.width, height: self.height, pixels: luma }
    }
}

/// Relies on image::DynamicImage::to_luma8: rebuilding the buffer as an RGB
/// image and converting it to luminance yields one byte per pixel, a function
/// of the pixel bytes alone.
#[verifier::external_body]
fn rgb_to_luma(frame: &Frame) -> (luma: Vec<u8>)
    requires
        frame.wf(),
    ensures
        luma@ == luma_of(frame.pixels@),
        3 * luma@.len() == frame.pixels@.len(),
{
    let img = image::RgbImage::from_raw(frame.width, frame.height, frame.pixels.clone()).unwrap();
    image::DynamicImage::ImageRgb8(img).to_luma8().into_raw()
}

/// A luminance-only frame: `width * height` pixels, one byte per pixel, rows
/// first. Both dimensions are at least one.
#[derive(Debug, Clone)]
pub struct GrayFrame {
    pub width: u32,
    pub height: u32,
    pub pixels: Vec<u8>,
}

impl GrayFrame {
    /// The pixel buffer holds exactly the grid the dimensions announce.
    pub open spec fn wf(self) -> bool {
        &&& self.width >= 1
        &&& self.height >= 1
        &&& self.pixels@.len() == (self.width as int) * (self.height as int)
    }
}

} // verus!
