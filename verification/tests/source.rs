use neckcheck::source::CaptureAction;
use neckcheck::source::CaptureEvent;
use neckcheck::source::FrameSource;
use neckcheck::source::WebCamError;
use neckcheck::source::WebCamMode;

/// Counts of the driver calls a capture run asked for.
#[derive(Default)]
struct FakeDriver {
    opens: usize,
    grabs: usize,
    closes: usize,
}

impl FakeDriver {
    /// Run one capture against a driver whose open and close always succeed
    /// and whose grab ends with the given event.
    fn capture(&mut self, source: &mut FrameSource, grab: CaptureEvent) -> Result<(), WebCamError> {
        let mut grab_outcome = Some(grab);
        let mut action = source.step(CaptureEvent::Request);
        loop {
            match action {
                CaptureAction::OpenStream => {
                    self.opens += 1;
                    action = source.step(CaptureEvent::OpenResult(true));
                }
                CaptureAction::GrabFrame => {
                    self.grabs += 1;
                    action = source.step(grab_outcome.take().expect("one grab per capture"));
                }
                CaptureAction::CloseStream => {
                    self.closes += 1;
                    action = source.step(CaptureEvent::CloseResult(true));
                }
                CaptureAction::Deliver => return Ok(()),
                CaptureAction::Fail(e) => return Err(e),
            }
        }
    }
}

#[test]
fn discrete_mode_closes_after_every_capture() {
    let mut source = FrameSource::new(WebCamMode::Discrete);
    let mut driver = FakeDriver::default();

    driver.capture(&mut source, CaptureEvent::FrameOk).unwrap();
    assert_eq!(driver.opens, 1);
    assert_eq!(driver.closes, 1);
    assert!(!source.is_stream_open());

    driver.capture(&mut source, CaptureEvent::FrameOk).unwrap();
    assert_eq!(driver.opens, 2);
    assert_eq!(driver.closes, 2);
    assert!(!source.is_stream_open());
}

#[test]
fn continuous_mode_keeps_the_stream_open() {
    let mut source = FrameSource::new(WebCamMode::Continuous);
    let mut driver = FakeDriver::default();

    driver.capture(&mut source, CaptureEvent::FrameOk).unwrap();
    driver.capture(&mut source, CaptureEvent::FrameOk).unwrap();
    driver.capture(&mut source, CaptureEvent::FrameOk).unwrap();

    assert_eq!(driver.opens, 1);
    assert_eq!(driver.closes, 0);
    assert!(source.is_stream_open());
}

#[test]
fn failed_grab_reports_the_driver_text_and_skips_the_close() {
    let mut source = FrameSource::new(WebCamMode::Discrete);
    let mut driver = FakeDriver::default();

    let result = driver.capture(
        &mut source,
        CaptureEvent::FrameGrabFailed(String::from("device busy")),
    );
    match result {
        Err(e) => {
            assert_eq!(e.message(), "device busy");
            assert!(matches!(e, WebCamError::FrameGrabError(_)));
        }
        Ok(()) => panic!("expected a grab error"),
    }
    assert_eq!(driver.closes, 0);
    assert!(source.is_stream_open());
}

#[test]
fn failed_decode_reports_a_decode_error() {
    let mut source = FrameSource::new(WebCamMode::Continuous);
    let mut driver = FakeDriver::default();

    let result = driver.capture(
        &mut source,
        CaptureEvent::FrameDecodeFailed(String::from("bad payload")),
    );
    match result {
        Err(WebCamError::FrameDecodeError(text)) => assert_eq!(text, "bad payload"),
        other => panic!("expected a decode error, got {:?}", other),
    }
}

#[test]
fn lazy_open_happens_only_when_closed() {
    let mut source = FrameSource::new(WebCamMode::Continuous);
    let mut driver = FakeDriver::default();

    assert!(!source.is_stream_open());
    driver.capture(&mut source, CaptureEvent::FrameOk).unwrap();
    assert!(source.is_stream_open());
    driver.capture(&mut source, CaptureEvent::FrameOk).unwrap();
    assert_eq!(driver.opens, 1);
    assert_eq!(driver.grabs, 2);
}
