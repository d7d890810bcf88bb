//! The face detector: a loaded detection model and the bounding boxes it
//! reports on a luminance frame.

use vstd::prelude::*;
use crate::frame::Frame;
use crate::frame::GrayFrame;

verus! {

/// The pixel bytes that the drawing library leaves after painting the
/// one-pixel red border of the given rectangle, clipped to the image, onto an
/// RGB pixel grid of the given dimensions: a function of its arguments alone.
pub uninterp spec fn outlined_of(
    pixels: Seq<u8>,
    width: u32,
    height: u32,
    x: i32,
    y: i32,
    box_width: u32,
    box_height: u32,
) -> Seq<u8>;

/// The pixel bytes left after outlining each of the first `n` boxes in turn.
pub open spec fn outlined_all(
    pixels: Seq<u8>,
    width: u32,
    height: u32,
    faces: Seq<BoundingBox>,
    n: int,
) -> Seq<u8>
    decreases n,
{
    if n <= 0 {
        pixels
    } else {
        let prev = outlined_all(pixels, width, height, faces, n - 1);
        outlined_of(
            prev,
            width,
            height,
            faces[n - 1].x,
            faces[n - 1].y,
            faces[n - 1].width,
            faces[n - 1].height,
        )
    }
}

/// One detected face, in frame pixel coordinates. Boxes carry no identity
/// across detection calls.
#[derive(Debug, Clone, Copy, PartialEq, Eq, Structural)]
pub struct BoundingBox {
    pub x: i32,
    pub y: i32,
    pub width: u32,
    pub height: u32,
}

impl BoundingBox {
    /// A detected face covers at least one pixel in each dimension.
    pub open spec fn wf(self) -> bool {
        self.width >= 1 && self.height >= 1
    }

    /// The box can be outlined: it covers at least one pixel, and the sum of
    /// its position and its size still has an `i32` coordinate — the drawing
    /// library computes the far edge as that sum before stepping back to the
    /// last pixel, so the sum itself must fit.
    pub open spec fn drawable(self) -> bool {
        &&& self.wf()
        &&& self.width as int <= i32::MAX as int
        &&& self.height as int <= i32::MAX as int
        &&& self.x as int + self.width as int <= i32::MAX as int
        &&& self.y as int + self.height as int <= i32::MAX as int
    }
}

/// The loaded face-detection model, searching with the model's usual
/// parameters (minimum face size 20 px, sliding-window step 4 by 4, pyramid
/// scale factor just under one) and a score threshold of 2. The model alone
/// decides what counts as a face; nothing here depends on which boxes it
/// reports. `Box<dyn rustface::Detector>` cannot be declared to the verifier,
/// so the whole struct is opaque.
#[verifier::external_body]
pub struct FaceDetector {
    detector: Box<dyn rustface::Detector>,
}

impl FaceDetector {
    /// Relies on rustface::create_detector: loads the model weights from the
    /// named file and fails exactly when that file cannot be read as a model.
    #[verifier::external_body]
    pub fn new(model_path: &str) -> (detector: Result<FaceDetector, String>) {
        match rustface::create_detector(model_path) {
            Ok(mut detector) => {
                detector.set_score_thresh(2u8.into());
                Ok(FaceDetector { detector })
            },
            Err(e) => Err(e.to_string()),
        }
    }

    /// Relies on rustface::Detector::detect: one box per face that clears the
    /// score threshold, in an order of the model's choosing. The model's own
    /// refinement computes the box coordinates, so nothing is promised of
    /// them; detection panics only on an image with a zero dimension, which
    /// `wf` rules out.
    #[verifier::external_body]
    pub fn detect(&mut self, gray: &GrayFrame) -> (faces: Vec<BoundingBox>)
        requires
            gray.wf(),
    {
        let image = rustface::ImageData::new(&gray.pixels, gray.width, gray.height);
        self.detector.detect(&image).iter().map(
            |f| BoundingBox {
                x: f.bbox().x(),
                y: f.bbox().y(),
                width: f.bbox().width(),
                height: f.bbox().height(),
            },
        ).collect()
    }

    /// Outline each detected face on the frame, in the order given: the frame
    /// keeps its dimensions and ends up with every box painted onto it.
    pub fn draw(frame: &mut Frame, faces: &Vec<BoundingBox>)
        requires
            old(frame).wf(),
            forall|i: int| 0 <= i < faces@.len() ==> faces@[i].drawable(),
        ensures
            final(frame).wf(),
            final(frame).width == old(frame).width,
            final(frame).height == old(frame).height,
            final(frame).pixels@ == outlined_all(
                old(frame).pixels@,
                old(frame).width,
                old(frame).height,
                faces@,
                faces@.len() as int,
            ),
    {
        let ghost orig = *frame;
        let mut i: usize = 0;
        while i < faces.len()
            invariant
                i <= faces@.len(),
                frame.wf(),
                frame.width == orig.width,
                frame.height == orig.height,
                frame.pixels@ == outlined_all(orig.pixels@, orig.width, orig.height, faces@, i as int),
                forall|j: int| 0 <= j < faces@.len() ==> faces@[j].drawable(),
            decreases faces@.len() - i,
        {
            draw_box(frame, &faces[i]);
            i = i + 1;
        }
    }
}

/// Relies on imageproc::drawing::draw_hollow_rect_mut: paints the one-pixel
/// red border of the rectangle onto the image in place, clipped to the image
/// bounds, leaving the dimensions and the buffer length as they were.
#[verifier::external_body]
fn draw_box(frame: &mut Frame, face: &BoundingBox)
    requires
        old(frame).wf(),
        face.drawable(),
    ensures
        final(frame).width == old(frame).width,
        final(frame).height == old(frame).height,
        final(frame).pixels@.len() == old(frame).pixels@.len(),
        final(frame).pixels@ == outlined_of(
            old(frame).pixels@,
            old(frame).width,
            old(frame).height,
            face.x,
            face.y,
            face.width,
            face.height,
        ),
{
    let buffer = std::mem::take(&mut frame.pixels);
    let mut img = image::RgbImage::from_raw(frame.width, frame.height, buffer).unwrap();
    let rect = imageproc::rect::Rect::at(face.x, face.y).of_size(face.width, face.height);
    imageproc::drawing::draw_hollow_rect_mut(&mut img, rect, image::Rgb([255u8, 0u8, 0u8]));
    frame.pixels = img.into_raw();
}

} // verus!
