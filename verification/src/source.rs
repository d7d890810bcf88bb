//! Lifecycle of the camera stream.
//!
//! A capture is a short protocol between the decision logic here and the
//! driver calls that the surrounding program performs: open the stream if it
//! is not open yet (lazy open), grab and decode one frame, and, in discrete
//! mode, close the stream again. `FrameSource` is the state of that protocol;
//! `step` consumes one driver event and says which driver call comes next.

use vstd::prelude::*;

verus! {

/// Failures of the camera driver boundary, each carrying the driver's
/// diagnostic text.
#[derive(Debug, Clone)]
pub enum WebCamError {
    FrameGrabError(String),
    StreamOpenError(String),
    StreamCloseError(String),
    FrameDecodeError(String),
}

impl WebCamError {
    /// The diagnostic text this failure carries.
    pub open spec fn message_spec(self) -> Seq<char> {
        match self {
            WebCamError::FrameGrabError(s) => s@,
            WebCamError::StreamOpenError(s) => s@,
            WebCamError::StreamCloseError(s) => s@,
            WebCamError::FrameDecodeError(s) => s@,
        }
    }

    /// The driver's diagnostic text, whatever the kind of failure.
    pub fn message(&self) -> (text: &String)
        ensures
            text@ == self.message_spec(),
    {
        match self {
            WebCamError::FrameGrabError(s) => s,
            WebCamError::StreamOpenError(s) => s,
            WebCamError::StreamCloseError(s) => s,
            WebCamError::FrameDecodeError(s) => s,
        }
    }
}

/// Whether the stream stays open across captures (`Continuous`) or is closed
/// after every capture (`Discrete`). Fixed at construction.
#[derive(Debug, Clone, Copy, PartialEq, Eq, Structural)]
pub enum WebCamMode {
    Continuous,
    Discrete,
}

/// Where a capture stands: `Idle` when none is in progress, otherwise the
/// driver call whose outcome is awaited.
#[derive(Debug, Clone, Copy, PartialEq, Eq, Structural)]
pub enum CapturePhase {
    Idle,
    AwaitOpen,
    AwaitFrame,
    AwaitClose,
}

/// What the surrounding program reports to the protocol: a capture request
/// from the caller, or the outcome of the driver call last asked for.
/// The `bool` of `OpenResult` and `CloseResult` says whether the driver call
/// succeeded; the strings carry the driver's diagnostic.
pub enum CaptureEvent {
    Request,
    OpenResult(bool),
    FrameOk,
    FrameGrabFailed(String),
    FrameDecodeFailed(String),
    CloseResult(bool),
}

/// What the protocol asks for next: a driver call, or the end of the capture
/// (hand the frame to the caller, or fail with the given error).
pub enum CaptureAction {
    OpenStream,
    GrabFrame,
    CloseStream,
    Deliver,
    Fail(WebCamError),
}

/// The capture protocol's state: the fixed mode, whether the stream is
/// believed open, and the phase of the capture in progress.
pub struct FrameSource {
    pub mode: WebCamMode,
    pub stream_open: bool,
    pub phase: CapturePhase,
}

impl FrameSource {
    /// A stream is only ever closed in discrete mode, so a continuous source
    /// never waits on a close.
    pub open spec fn inv(self) -> bool {
        self.mode is Continuous ==> !(self.phase is AwaitClose)
    }

    /// Which events the protocol can take in its current phase.
    pub open spec fn accepts(self, event: CaptureEvent) -> bool {
        match event {
            CaptureEvent::Request => self.phase is Idle,
            CaptureEvent::OpenResult(_) => self.phase is AwaitOpen,
            CaptureEvent::FrameOk => self.phase is AwaitFrame,
            CaptureEvent::FrameGrabFailed(_) => self.phase is AwaitFrame,
            CaptureEvent::FrameDecodeFailed(_) => self.phase is AwaitFrame,
            CaptureEvent::CloseResult(_) => self.phase is AwaitClose,
        }
    }

    /// The transition function: from a state and an event to the next state
    /// and the action asked of the surrounding program.
    ///
    /// Open and close failures are absorbed (the capture goes on; the stream
    /// is simply still closed, or still open), as the grab attempt itself
    /// reports the usable error. A failed grab or decode ends the capture at
    /// once, so in discrete mode only a delivered frame is followed by a
    /// close.
    pub open spec fn step_spec(self, event: CaptureEvent) -> (FrameSource, CaptureAction)
        recommends
            self.accepts(event),
    {
        match event {
            CaptureEvent::Request => if self.stream_open {
                (
                    FrameSource { phase: CapturePhase::AwaitFrame, ..self },
                    CaptureAction::GrabFrame,
                )
            } else {
                (FrameSource { phase: CapturePhase::AwaitOpen, ..self }, CaptureAction::OpenStream)
            },
            CaptureEvent::OpenResult(ok) => (
                FrameSource {
                    phase: CapturePhase::AwaitFrame,
                    stream_open: self.stream_open || ok,
                    ..self
                },
                CaptureAction::GrabFrame,
            ),
            CaptureEvent::FrameOk => if self.mode is Discrete {
                (
                    FrameSource { phase: CapturePhase::AwaitClose, ..self },
                    CaptureAction::CloseStream,
                )
            } else {
                (FrameSource { phase: CapturePhase::Idle, ..self }, CaptureAction::Deliver)
            },
            CaptureEvent::FrameGrabFailed(msg) => (
                FrameSource { phase: CapturePhase::Idle, ..self },
                CaptureAction::Fail(WebCamError::FrameGrabError(msg)),
            ),
            CaptureEvent::FrameDecodeFailed(msg) => (
                FrameSource { phase: CapturePhase::Idle, ..self },
                CaptureAction::Fail(WebCamError::FrameDecodeError(msg)),
            ),
            CaptureEvent::CloseResult(ok) => (
                FrameSource {
                    phase: CapturePhase::Idle,
                    stream_open: self.stream_open && !ok,
                    ..self
                },
                CaptureAction::Deliver,
            ),
        }
    }

    /// A fresh source: stream closed, no capture in progress.
    pub fn new(mode: WebCamMode) -> (s: FrameSource)
        ensures
            s.mode == mode,
            !s.stream_open,
            s.phase is Idle,
            s.inv(),
    {
        FrameSource { mode, stream_open: false, phase: CapturePhase::Idle }
    }

    /// Whether the protocol believes the stream is open.
    pub fn is_stream_open(&self) -> (open: bool)
        ensures
            open == self.stream_open,
    {
        self.stream_open
    }

    /// Take one step of the capture protocol. Beyond following `step_spec`,
    /// the mode never changes; a continuous source never asks for a close and
    /// keeps an open stream open; and in discrete mode every delivered frame
    /// asks for a close first.
    pub fn step(&mut self, event: CaptureEvent) -> (action: CaptureAction)
        requires
            old(self).inv(),
            old(self).accepts(event),
        ensures
            (*final(self), action) == old(self).step_spec(event),
            final(self).inv(),
            final(self).mode == old(self).mode,
            old(self).mode is Continuous ==> !(action is CloseStream),
            old(self).mode is Continuous && old(self).stream_open ==> final(self).stream_open,
            old(self).mode is Discrete && event is FrameOk ==> action is CloseStream,
            old(self).mode is Discrete && action is Deliver ==> old(self).phase is AwaitClose,
    {
        match event {
            CaptureEvent::Request => {
                if self.stream_open {
                    self.phase = CapturePhase::AwaitFrame;
                    CaptureAction::GrabFrame
                } else {
                    self.phase = CapturePhase::AwaitOpen;
                    CaptureAction::OpenStream
                }
            },
            CaptureEvent::OpenResult(ok) => {
                self.stream_open = self.stream_open || ok;
                self.phase = CapturePhase::AwaitFrame;
                CaptureAction::GrabFrame
            },
            CaptureEvent::FrameOk => {
                if self.mode == WebCamMode::Discrete {
                    self.phase = CapturePhase::AwaitClose;
                    CaptureAction::CloseStream
                } else {
                    self.phase = CapturePhase::Idle;
                    CaptureAction::Deliver
                }
            },
            CaptureEvent::FrameGrabFailed(msg) => {
                self.phase = CapturePhase::Idle;
                CaptureAction::Fail(WebCamError::FrameGrabError(msg))
            },
            CaptureEvent::FrameDecodeFailed(msg) => {
                self.phase = CapturePhase::Idle;
                CaptureAction::Fail(WebCamError::FrameDecodeError(msg))
            },
            CaptureEvent::CloseResult(ok) => {
                self.phase = CapturePhase::Idle;
                self.stream_open = self.stream_open && !ok;
                CaptureAction::Deliver
            },
        }
    }
}

/// A continuous source never closes the stream: no event makes it ask for a
/// close, and an open stream stays open across the step.
pub proof fn lemma_continuous_keeps_stream(s: FrameSource, event: CaptureEvent)
    requires
        s.inv(),
        s.accepts(event),
        s.mode is Continuous,
    ensures
        !(s.step_spec(event).1 is CloseStream),
        s.stream_open ==> s.step_spec(event).0.stream_open,
{
}

/// A discrete source closes the stream after every capture: a grabbed and
/// decoded frame is always followed by a close of the stream, and the frame
/// is delivered only once the close was asked for.
pub proof fn lemma_discrete_closes_after_capture(s: FrameSource, event: CaptureEvent)
    requires
        s.accepts(event),
        s.mode is Discrete,
    ensures
        event is FrameOk ==> s.step_spec(event).1 is CloseStream,
        s.step_spec(event).1 is Deliver ==> s.phase is AwaitClose,
{
}

} // verus!
