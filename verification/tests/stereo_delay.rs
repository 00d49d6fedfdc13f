use grain_garden::delay::{DelayParams, FeedbackParams, StereoDelay, Tap, DELAY_BUF_SIZE};
use grain_garden::dsp::StereoFrame;
use grain_garden::saturation::SaturationMode;

fn params(time_l: usize, time_r: usize, bypass: bool, pitch: bool) -> DelayParams<f32> {
    DelayParams { feedback: 0.5, mix: 0.25, time_l, time_r, bypass, pitch }
}

fn interpolate(tap: Tap<f32>) -> f32 {
    if tap.halfway {
        0.5 * tap.first + 0.5 * tap.second
    } else {
        tap.first
    }
}

/// One frame through the delay without saturation: what the lines hand out
/// is fed back at the feedback in force and mixed with the input.
fn process(delay: &mut StereoDelay<f32>, sample: StereoFrame<f32>) -> StereoFrame<f32> {
    match delay.taps() {
        None => sample,
        Some((left, right)) => {
            let (wet_l, wet_r) = (interpolate(left), interpolate(right));
            let settings = delay.params();
            let fed = StereoFrame(
                sample.0 + wet_l * settings.feedback,
                sample.1 + wet_r * settings.feedback,
            );
            delay.feed(StereoFrame(wet_l, wet_r), fed);
            StereoFrame(
                sample.0 * (1.0 - settings.mix) + wet_l * settings.mix,
                sample.1 * (1.0 - settings.mix) + wet_r * settings.mix,
            )
        }
    }
}

#[test]
fn stereo_delay_starts_bypassed_in_tape_mode() {
    let delay: StereoDelay<f32> = StereoDelay::new(3, 5, 0.2, 0.5, 0.7, 0.0);
    let settings = delay.params();
    assert!(settings.bypass);
    assert!(!settings.pitch);
    assert_eq!(settings.feedback, 0.2);
    assert_eq!(settings.mix, 0.5);
    assert_eq!(settings.time_l, 3);
    assert_eq!(settings.time_r, 5);
    let feedback = delay.feedback_params();
    assert_eq!(feedback.drive, 0.7);
    assert!(!feedback.saturate);
    assert_eq!(feedback.mode, SaturationMode::Tape);
    let (left, right) = delay.saturaters();
    assert_eq!(left.mode(), SaturationMode::Tape);
    assert_eq!(right.mode(), SaturationMode::Tape);
    assert_eq!(left.drive(), 0.7);
    assert_eq!(right.prev(), 0.0);
    assert_eq!(DELAY_BUF_SIZE, 264000);
    assert!(delay.taps().is_none());
    assert!(!delay.saturates());
}

#[test]
fn stereo_delay_bypass_is_the_identity() {
    let mut delay: StereoDelay<f32> = StereoDelay::new(1, 1, 0.5, 0.5, 0.7, 0.0);
    delay.update_params(Some(params(1, 1, false, false)), None);
    process(&mut delay, StereoFrame(0.75, -0.5));
    delay.update_params(Some(params(1, 1, true, false)), None);
    for frame in 0..16 {
        let input = StereoFrame(frame as f32 * 0.125, -0.25);
        let output = process(&mut delay, input);
        assert_eq!(output.0, input.0);
        assert_eq!(output.1, input.1);
        assert!(delay.taps().is_none());
        delay.feed(StereoFrame(9.0, 9.0), StereoFrame(9.0, 9.0));
    }
    // Nothing moved while the delay was bypassed: the frame written before
    // is still one frame away.
    delay.update_params(Some(params(1, 1, false, false)), None);
    let (left, right) = delay.taps().unwrap();
    assert_eq!(left.first, 0.75);
    assert_eq!(right.first, -0.5);
}

#[test]
fn stereo_delay_echoes_after_the_delay_time() {
    let mut delay: StereoDelay<f32> = StereoDelay::new(0, 0, 0.5, 0.25, 0.7, 0.0);
    delay.update_params(Some(params(2, 3, false, false)), None);
    let mut left = Vec::new();
    let mut right = Vec::new();
    for frame in 0..8 {
        let input = if frame == 0 { StereoFrame(1.0, 1.0) } else { StereoFrame(0.0, 0.0) };
        let output = process(&mut delay, input);
        left.push(output.0);
        right.push(output.1);
    }
    assert_eq!(left, vec![0.75, 0.0, 0.25, 0.0, 0.125, 0.0, 0.0625, 0.0]);
    assert_eq!(right, vec![0.75, 0.0, 0.0, 0.25, 0.0, 0.0, 0.125, 0.0]);
}

#[test]
fn stereo_delay_tail_decays_by_the_feedback_per_round() {
    let mut delay: StereoDelay<f32> = StereoDelay::new(0, 0, 0.5, 1.0, 0.7, 0.0);
    delay.update_params(
        Some(DelayParams { feedback: 0.5, mix: 1.0, time_l: 1, time_r: 1, bypass: false, pitch: false }),
        None,
    );
    process(&mut delay, StereoFrame(1.0, 1.0));
    let mut expected = 1.0f32;
    for _ in 0..10 {
        let output = process(&mut delay, StereoFrame(0.0, 0.0));
        assert_eq!(output.0, expected);
        assert_eq!(output.1, expected);
        expected *= 0.5;
    }
}

#[test]
fn stereo_delay_new_settings_set_the_times() {
    let mut delay: StereoDelay<u32> = StereoDelay::new(1, 1, 0, 0, 0, 0);
    delay.update_params(
        Some(DelayParams { feedback: 0, mix: 0, time_l: 1, time_r: 1, bypass: false, pitch: false }),
        None,
    );
    delay.feed(StereoFrame(0, 0), StereoFrame(10, 20));
    delay.feed(StereoFrame(0, 0), StereoFrame(11, 21));
    delay.feed(StereoFrame(0, 0), StereoFrame(12, 22));
    let (left, right) = delay.taps().unwrap();
    assert_eq!((left.first, right.first), (12, 22));
    // A jump takes hold at once.
    delay.update_params(
        Some(DelayParams { feedback: 0, mix: 0, time_l: 3, time_r: 2, bypass: false, pitch: false }),
        None,
    );
    let (left, right) = delay.taps().unwrap();
    assert_eq!((left.first, right.first), (10, 21));
    assert!(!left.halfway && !right.halfway);
    // A glide moves by half a sample per frame.
    delay.update_params(
        Some(DelayParams { feedback: 0, mix: 0, time_l: 4, time_r: 2, bypass: false, pitch: true }),
        None,
    );
    let (left, _) = delay.taps().unwrap();
    assert!(!left.halfway);
    delay.feed(StereoFrame(0, 0), StereoFrame(13, 23));
    let (left, right) = delay.taps().unwrap();
    assert!(left.halfway);
    assert!(!right.halfway);
    assert_eq!((left.first, left.second), (10, 11));
    assert_eq!(right.first, 22);
    delay.feed(StereoFrame(0, 0), StereoFrame(14, 24));
    let (left, _) = delay.taps().unwrap();
    assert!(!left.halfway);
    assert_eq!(left.first, 11);
}

#[test]
fn stereo_delay_feedback_settings_set_the_mode_of_both_saturaters() {
    let mut delay: StereoDelay<f32> = StereoDelay::new(1, 1, 0.5, 0.5, 0.7, 0.0);
    delay.update_params(
        None,
        Some(FeedbackParams { drive: 2.0, saturate: true, mode: SaturationMode::Transistor }),
    );
    let (left, right) = delay.saturaters();
    assert_eq!(left.mode(), SaturationMode::Transistor);
    assert_eq!(right.mode(), SaturationMode::Transistor);
    // The drive of the saturaters is the one they were made with.
    assert_eq!(left.drive(), 0.7);
    assert_eq!(delay.feedback_params().drive, 2.0);
    assert!(delay.feedback_params().saturate);
    // A bypassed delay does not saturate.
    assert!(!delay.saturates());
    delay.update_params(Some(params(1, 1, false, false)), None);
    assert!(delay.saturates());
}

#[test]
fn stereo_delay_saturaters_remember_only_when_they_run() {
    let mut delay: StereoDelay<f32> = StereoDelay::new(1, 1, 0.5, 0.5, 0.7, 0.0);
    delay.update_params(Some(params(1, 1, false, false)), None);
    delay.feed(StereoFrame(0.3, 0.4), StereoFrame(0.0, 0.0));
    assert_eq!(delay.saturaters().0.prev(), 0.0);
    delay.update_params(None, Some(FeedbackParams { drive: 0.7, saturate: true, mode: SaturationMode::Tape }));
    delay.feed(StereoFrame(0.3, 0.4), StereoFrame(0.0, 0.0));
    assert_eq!(delay.saturaters().0.prev(), 0.3);
    assert_eq!(delay.saturaters().1.prev(), 0.4);
    // Another mode keeps the memory and adds nothing to it.
    delay.update_params(None, Some(FeedbackParams { drive: 0.7, saturate: true, mode: SaturationMode::Tube }));
    delay.feed(StereoFrame(0.9, 0.9), StereoFrame(0.0, 0.0));
    assert_eq!(delay.saturaters().0.prev(), 0.3);
    assert_eq!(delay.saturaters().1.prev(), 0.4);
}

#[test]
fn feedback_params_with_drive_is_tape_without_saturation() {
    let feedback = FeedbackParams::with_drive(0.7f32);
    assert_eq!(feedback.drive, 0.7);
    assert!(!feedback.saturate);
    assert_eq!(feedback.mode, SaturationMode::Tape);
}
