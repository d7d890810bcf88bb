//! A posture monitor: frames sampled from a camera are searched for a face,
//! and the size of the detected face box, measured against a one-shot
//! calibration, decides whether the user sits too close to the screen.

pub mod alert;
pub mod detector;
pub mod frame;
pub mod monitor;
pub mod source;
