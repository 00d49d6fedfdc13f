use grain_garden::dsp::{interleave, StereoFrame};

#[test]
fn stereo_frame_new_copies_the_sample_to_both_channels() {
    let frame = StereoFrame::new(0.25f32);
    assert_eq!(frame.0, 0.25);
    assert_eq!(frame.1, 0.25);
}

#[test]
fn interleave_alternates_left_and_right() {
    let frames = vec![StereoFrame(1.0f32, 2.0), StereoFrame(3.0, 4.0), StereoFrame(5.0, 6.0)];
    assert_eq!(interleave(&frames), vec![1.0, 2.0, 3.0, 4.0, 5.0, 6.0]);
}

#[test]
fn interleave_of_nothing_is_nothing() {
    let frames: Vec<StereoFrame<f32>> = Vec::new();
    assert!(interleave(&frames).is_empty());
}

#[test]
fn interleave_doubles_the_length() {
    let frames = vec![StereoFrame::new(7u8); 512];
    let flat = interleave(&frames);
    assert_eq!(flat.len(), 1024);
    assert!(flat.iter().all(|sample| *sample == 7));
}
