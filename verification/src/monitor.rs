//! The posture monitor: a one-shot calibration state machine and the
//! too-close decision.
//!
//! Calibration learns the largest acceptable size of a detected face box from
//! one reference sample with exactly one face in it. A later check passes
//! when no face is seen at all, or when the first detected box does not
//! exceed the calibrated size in either dimension (the boundary itself is
//! acceptable: "exceeds" is strict).

use vstd::prelude::*;
use crate::detector::BoundingBox;
use crate::detector::FaceDetector;
use crate::frame::Frame;

verus! {

/// A width/height pair in pixels, compared component-wise.
#[derive(Debug, Clone, Copy, PartialEq, Eq, Structural)]
pub struct Size {
    pub width: u32,
    pub height: u32,
}

impl Size {
    pub fn new(width: u32, height: u32) -> (s: Size)
        ensures
            s.width == width,
            s.height == height,
    {
        Size { width, height }
    }
}

/// The learned threshold: the largest detection box that does not yet count
/// as "too close". Immutable once recorded.
#[derive(Debug, Clone, Copy, PartialEq, Eq, Structural)]
pub struct NeckCheckCalibration {
    pub max_detection_size: Size,
}

/// What one calibration sample led to: exactly one face calibrates the
/// monitor; a zero-face or multi-face sample is rejected and the operator is
/// asked for another sample.
#[derive(Debug, Clone, Copy, PartialEq, Eq, Structural)]
pub enum CalibrationOutcome {
    Calibrated,
    NoFace,
    MultipleFaces,
}

/// Whether a detected box is acceptable under the calibrated maximum:
/// neither dimension exceeds it (strictly).
pub open spec fn fits(face: BoundingBox, max: Size) -> bool {
    face.width <= max.width && face.height <= max.height
}

/// The check decision over a detection result: no face at all passes, and
/// otherwise the first detected box decides.
pub open spec fn check_spec(faces: Seq<BoundingBox>, max: Size) -> bool {
    faces.len() == 0 || fits(faces[0], max)
}

/// The decision engine. `Uncalibrated` until exactly one face is seen in a
/// calibration sample, `Calibrated` from then on; there is no way back.
pub struct NeckCheck {
    calibration: Option<NeckCheckCalibration>,
}

impl NeckCheck {
    /// The calibration recorded so far, if any.
    pub closed spec fn calibration(self) -> Option<NeckCheckCalibration> {
        self.calibration
    }

    /// An uncalibrated monitor.
    pub fn new() -> (n: NeckCheck)
        ensures
            n.calibration() is None,
    {
        NeckCheck { calibration: None }
    }

    /// A monitor that starts out calibrated with the given threshold.
    pub fn with_calibration(calibration: NeckCheckCalibration) -> (n: NeckCheck)
        ensures
            n.calibration() == Some(calibration),
    {
        NeckCheck { calibration: Some(calibration) }
    }

    /// Whether calibration has completed.
    pub fn is_calibrated(&self) -> (c: bool)
        ensures
            c == (self.calibration() is Some),
    {
        self.calibration.is_some()
    }

    /// The calibrated maximum, if calibration has completed.
    pub fn max_detection_size(&self) -> (s: Option<Size>)
        ensures
            match self.calibration() {
                Some(c) => s == Some(c.max_detection_size),
                None => s is None,
            },
    {
        match &self.calibration {
            Some(c) => Some(c.max_detection_size),
            None => None,
        }
    }

    /// Judge one calibration sample, already reduced to its detection result.
    /// Exactly one face completes calibration and records that face's box
    /// size, to the pixel; any other sample leaves the monitor as it was.
    /// A calibration is created once and never replaced, so only a monitor
    /// not yet calibrated may take a sample.
    pub fn calibrate_faces(&mut self, faces: &Vec<BoundingBox>) -> (outcome: CalibrationOutcome)
        requires
            old(self).calibration() is None,
        ensures
            (outcome is Calibrated) == (faces@.len() == 1),
            (outcome is NoFace) == (faces@.len() == 0),
            (outcome is MultipleFaces) == (faces@.len() > 1),
            faces@.len() == 1 ==> final(self).calibration() == Some(
                NeckCheckCalibration {
                    max_detection_size: Size { width: faces@[0].width, height: faces@[0].height },
                },
            ),
            faces@.len() != 1 ==> *final(self) == *old(self),
    {
        if faces.len() == 0 {
            CalibrationOutcome::NoFace
        } else if faces.len() > 1 {
            CalibrationOutcome::MultipleFaces
        } else {
            let face = &faces[0];
            let size = Size::new(face.width, face.height);
            self.calibration = Some(NeckCheckCalibration { max_detection_size: size });
            CalibrationOutcome::Calibrated
        }
    }

    /// Judge one detection result against the calibrated maximum. With no
    /// face detected the check passes whatever the calibration holds, and
    /// otherwise the first detected box passes exactly when neither of its
    /// dimensions exceeds the maximum. A check on an uncalibrated monitor is
    /// a programming error, not a result: the precondition excludes it from
    /// every verified caller, and an unverified caller must test
    /// `is_calibrated` first and abort as the surrounding program does.
    pub fn check_faces(&self, faces: &Vec<BoundingBox>) -> (ok: bool)
        requires
            self.calibration() is Some,
        ensures
            ok == check_spec(faces@, self.calibration()->Some_0.max_detection_size),
    {
        if faces.len() == 0 {
            return true;
        }
        let face = &faces[0];
        let max = match &self.calibration {
            Some(c) => &c.max_detection_size,
            None => unreached(),
        };
        if face.width > max.width || face.height > max.height {
            return false;
        }
        true
    }

    /// Run detection on one frame and judge the result as a calibration
    /// sample. Which outcome comes back is the detection model's to decide;
    /// for every detection result the judgement is that of `calibrate_faces`,
    /// so calibration completes only on an exactly-one-face sample. As with
    /// `calibrate_faces`, only a monitor not yet calibrated may take a sample.
    pub fn calibrate_sample(&mut self, detector: &mut FaceDetector, frame: &Frame) -> (outcome:
        CalibrationOutcome)
        requires
            old(self).calibration() is None,
            frame.wf(),
        ensures
            outcome is Calibrated ==> final(self).calibration() is Some,
            !(outcome is Calibrated) ==> final(self).calibration() is None,
    {
        let gray = frame.to_gray();
        let faces = detector.detect(&gray);
        self.calibrate_faces(&faces)
    }

    /// Run detection on one frame and judge the result against the
    /// calibration. Which faces are detected is the detection model's to
    /// decide; for every detection result the verdict is that of
    /// `check_faces`. As there, a check on an uncalibrated monitor is a
    /// programming error excluded by precondition, never a returned value.
    pub fn check(&self, detector: &mut FaceDetector, frame: &Frame) -> (ok: bool)
        requires
            self.calibration() is Some,
            frame.wf(),
    {
        let gray = frame.to_gray();
        let faces = detector.detect(&gray);
        self.check_faces(&faces)
    }
}

/// With no detected face a check passes, whatever size the calibration holds.
pub proof fn lemma_no_face_passes(max: Size)
    ensures
        check_spec(Seq::<BoundingBox>::empty(), max),
{
}

/// The calibrated boundary is inclusive: a single face fails the check
/// exactly when one of its dimensions strictly exceeds the calibrated
/// maximum, so a face of exactly the calibrated size passes.
pub proof fn lemma_exceeds_is_strict(face: BoundingBox, max: Size)
    ensures
        check_spec(seq![face], max) == !(face.width > max.width || face.height > max.height),
        face.width == max.width && face.height == max.height ==> check_spec(seq![face], max),
{
}

} // verus!
