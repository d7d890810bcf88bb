use neckcheck::detector::BoundingBox;
use neckcheck::detector::FaceDetector;
use neckcheck::frame::Frame;

#[test]
fn frame_new_accepts_exactly_three_bytes_per_pixel() {
    assert!(Frame::new(1, 1, vec![10, 20, 30]).is_some());
    assert!(Frame::new(2, 2, vec![0; 12]).is_some());
    assert!(Frame::new(0, 1, Vec::new()).is_none());
    assert!(Frame::new(1, 0, Vec::new()).is_none());
    assert!(Frame::new(1, 1, vec![10, 20]).is_none());
    assert!(Frame::new(2, 2, vec![0; 13]).is_none());
}

#[test]
fn to_gray_maps_each_pixel_to_one_luminance_byte() {
    let white = Frame::new(1, 1, vec![255, 255, 255]).unwrap();
    let gray = white.to_gray();
    assert_eq!(gray.width, 1);
    assert_eq!(gray.height, 1);
    assert_eq!(gray.pixels, vec![255]);

    let black = Frame::new(1, 1, vec![0, 0, 0]).unwrap();
    assert_eq!(black.to_gray().pixels, vec![0]);

    let four = Frame::new(2, 2, vec![7; 12]).unwrap();
    let gray = four.to_gray();
    assert_eq!(gray.pixels.len(), 4);
}

#[test]
fn draw_outlines_the_box_and_leaves_the_inside_alone() {
    let mut frame = Frame::new(3, 3, vec![0; 27]).unwrap();
    let faces = vec![BoundingBox { x: 0, y: 0, width: 3, height: 3 }];
    FaceDetector::draw(&mut frame, &faces);

    assert_eq!(frame.width, 3);
    assert_eq!(frame.height, 3);
    assert_eq!(frame.pixels.len(), 27);
    // top-left corner turned red
    assert_eq!(&frame.pixels[0..3], &[255, 0, 0]);
    // bottom-right corner turned red
    assert_eq!(&frame.pixels[24..27], &[255, 0, 0]);
    // the centre pixel is inside the hollow rectangle and stays black
    let centre = (1 * 3 + 1) * 3;
    assert_eq!(&frame.pixels[centre..centre + 3], &[0, 0, 0]);
}

#[test]
fn draw_with_no_faces_changes_nothing() {
    let mut frame = Frame::new(2, 1, vec![1, 2, 3, 4, 5, 6]).unwrap();
    FaceDetector::draw(&mut frame, &Vec::new());
    assert_eq!(frame.pixels, vec![1, 2, 3, 4, 5, 6]);
}

#[test]
fn detector_construction_fails_on_a_missing_model_file() {
    let result = FaceDetector::new("no-such-model-file.bin");
    assert!(result.is_err());
}
