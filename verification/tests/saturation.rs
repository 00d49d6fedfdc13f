use grain_garden::saturation::{Saturater, SaturationMode};

#[test]
fn saturater_starts_at_rest() {
    let sat = Saturater::new(0.7f32, 0.0, SaturationMode::Tape);
    assert_eq!(sat.drive(), 0.7);
    assert_eq!(sat.prev(), 0.0);
    assert_eq!(sat.mode(), SaturationMode::Tape);
}

#[test]
fn tape_remembers_what_it_shaped() {
    let mut sat = Saturater::new(0.7f32, 0.0, SaturationMode::Tape);
    sat.remember(0.5);
    assert_eq!(sat.prev(), 0.5);
    sat.remember(-0.25);
    assert_eq!(sat.prev(), -0.25);
}

#[test]
fn tube_and_transistor_have_no_memory() {
    let mut tube = Saturater::new(0.7f32, 0.0, SaturationMode::Tube);
    tube.remember(0.5);
    assert_eq!(tube.prev(), 0.0);
    let mut transistor = Saturater::new(0.7f32, 0.0, SaturationMode::Transistor);
    transistor.remember(0.5);
    assert_eq!(transistor.prev(), 0.0);
}

#[test]
fn switching_the_mode_keeps_the_memory() {
    let mut sat = Saturater::new(1.5f32, 0.0, SaturationMode::Tape);
    sat.remember(0.75);
    sat.set_mode(&SaturationMode::Tube);
    assert_eq!(sat.mode(), SaturationMode::Tube);
    assert_eq!(sat.prev(), 0.75);
    assert_eq!(sat.drive(), 1.5);
    sat.remember(0.1);
    sat.set_mode(&SaturationMode::Tape);
    assert_eq!(sat.prev(), 0.75);
}
