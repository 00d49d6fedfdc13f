use grain_garden::dsp::StereoFrame;
use grain_garden::granular::grain::GrainRead;
use grain_garden::granular::sequencer::PointSet;
use grain_garden::granular::{
    default_source, GranularEngine, GranularParams, DEFAULT_PERIOD, DEFAULT_SPREAD, POOL_SIZE,
};

const POINT: Option<(f32, f32)> = Some((250.0, 10.0));

fn ramp(len: usize) -> Vec<StereoFrame<f32>> {
    (0..len).map(|i| StereoFrame(i as f32, i as f32)).collect()
}

fn engine() -> GranularEngine<f32> {
    let mut engine = GranularEngine::new(String::from("source.wav"), 0.7, 0.0);
    engine.load(ramp(1000), 44000);
    engine
}

fn settings(grain_length: usize, start: usize, period: usize) -> GranularParams<f32> {
    GranularParams {
        grain_length,
        grain_spread: 500,
        gain: 1.0,
        start,
        scan: None,
        file: default_source(),
        period,
    }
}

/// An engine with the given settings whose sequencer triggers on every
/// frame it is offered a point.
fn eager(grain_length: usize, start: usize) -> GranularEngine<f32> {
    let mut engine = engine();
    engine.update_params(Some(settings(grain_length, start, 1)), None);
    engine
}

/// One frame in which the sequencer picks `POINT` and the grain it asks
/// for is placed at `offset`.
fn frame_with_grain(engine: &mut GranularEngine<f32>, offset: usize, pan: f32) -> Vec<GrainRead<f32>> {
    assert_eq!(engine.schedule_with(None, POINT).len(), 1);
    engine.spawn(&vec![(offset, pan)]);
    engine.read_grains()
}

/// One frame in which no point is picked and no grain is placed.
fn frame_without_grain(engine: &mut GranularEngine<f32>) -> Vec<GrainRead<f32>> {
    assert!(engine.schedule_with(None, None).is_empty());
    engine.spawn(&Vec::new());
    engine.read_grains()
}

/// The sum of what the grains yielded, scaled as the engine's caller scales
/// it: by the gain over the number of grains, or over one where there is
/// none.
fn mix(reads: &[GrainRead<f32>], gain: f32, grains: usize) -> StereoFrame<f32> {
    let mut dry = StereoFrame(0.0f32, 0.0f32);
    for read in reads {
        dry.0 += (1.0 - read.pan) * read.frame.0 * 0.5;
        dry.1 += (1.0 + read.pan) * read.frame.1 * 0.5;
    }
    let scale = gain / grains.max(1) as f32;
    StereoFrame(dry.0 * scale, dry.1 * scale)
}

#[test]
fn new_engine_has_a_pool_of_finished_grains_and_no_source() {
    let engine: GranularEngine<f32> = GranularEngine::new(String::from("a.wav"), 0.7, 0.0);
    assert_eq!(engine.path(), "a.wav");
    assert_eq!(engine.buffer_size(), 0);
    assert_eq!(engine.grain_count(), POOL_SIZE);
    assert_eq!(POOL_SIZE, 64);
    assert!(engine.gate());
    assert!(!engine.scan());
    assert_eq!(engine.sample_rate(), 0);
    let params = engine.params();
    assert_eq!(params.grain_length, 44000);
    assert_eq!(params.grain_spread, DEFAULT_SPREAD);
    assert_eq!(DEFAULT_SPREAD, 88000);
    assert_eq!(params.gain, 0.7);
    assert_eq!(params.start, 0);
    assert_eq!(params.scan, None);
    assert_eq!(params.file, "assets/audio/handpan_trimmed.wav");
    assert_eq!(params.period, DEFAULT_PERIOD);
    assert_eq!(DEFAULT_PERIOD, 44000);
}

#[test]
fn load_replaces_the_source() {
    let mut engine = engine();
    assert_eq!(engine.buffer_size(), 1000);
    assert_eq!(engine.sample_rate(), 44000);
    engine.load(ramp(12), 48000);
    assert_eq!(engine.buffer_size(), 12);
    assert_eq!(engine.sample_rate(), 48000);
}

#[test]
fn engine_with_closed_gate_and_no_grains_is_silent() {
    let mut engine = engine();
    assert!(!engine.update_params(None, Some(false)));
    let points = PointSet { points: vec![(100.0, 50.0), (300.0, 20.0)], max_height: 50.0 };
    let mut points = Some(points);
    for _ in 0..500 {
        engine.update_params(None, None);
        let triggers = engine.schedule(points.take());
        assert!(triggers.is_empty());
        engine.spawn(&vec![(10, 0.0), (20, 0.5)]);
        let reads = engine.read_grains();
        assert!(reads.is_empty());
        assert_eq!(engine.grain_count(), 0);
        let frame = mix(&reads, engine.params().gain, engine.grain_count());
        assert_eq!(frame.0, 0.0);
        assert_eq!(frame.1, 0.0);
    }
}

#[test]
fn schedule_drops_the_pool_of_finished_grains() {
    let mut engine = engine();
    let triggers = engine.schedule(None);
    assert!(triggers.is_empty());
    assert_eq!(engine.grain_count(), 0);
}

#[test]
fn engine_spawns_one_grain_per_trigger() {
    let mut engine = eager(4, 100);
    // Two triggers are queued behind a closed gate, and handed out with
    // the third once it opens.
    engine.update_params(None, Some(false));
    assert!(engine.schedule_with(None, POINT).is_empty());
    assert!(engine.schedule_with(None, POINT).is_empty());
    engine.update_params(None, Some(true));
    assert_eq!(engine.schedule_with(None, POINT).len(), 3);
    engine.spawn(&vec![(5, -1.0), (7, 1.0), (0, 0.0)]);
    assert_eq!(engine.grain_count(), 3);
    let reads = engine.read_grains();
    assert_eq!(reads.len(), 3);
    assert_eq!(reads[0].frame.0, 105.0);
    assert_eq!(reads[0].pan, -1.0);
    assert_eq!(reads[0].length, 4);
    assert_eq!(reads[0].phase, 0);
    assert_eq!(reads[1].frame.0, 107.0);
    assert_eq!(reads[1].pan, 1.0);
    assert_eq!(reads[2].frame.0, 100.0);
    let frame = mix(&reads, 6.0, engine.grain_count());
    assert_eq!(frame.0, (105.0 + 50.0) * 2.0);
    assert_eq!(frame.1, (107.0 + 50.0) * 2.0);
}

#[test]
fn placements_without_a_trigger_are_left_aside() {
    let mut engine = eager(4, 100);
    assert!(engine.schedule_with(None, None).is_empty());
    engine.spawn(&vec![(5, 0.0), (6, 0.0)]);
    assert_eq!(engine.grain_count(), 0);
    // One trigger takes the first placement only.
    assert_eq!(engine.schedule_with(None, POINT).len(), 1);
    engine.spawn(&vec![(5, 0.0), (6, 0.0)]);
    assert_eq!(engine.grain_count(), 1);
    assert_eq!(engine.read_grains()[0].frame.0, 105.0);
    // A trigger is awaited for its own frame only.
    assert_eq!(engine.schedule_with(None, POINT).len(), 1);
    engine.spawn(&Vec::new());
    engine.spawn(&vec![(7, 0.0)]);
    assert_eq!(engine.grain_count(), 1);
}

#[test]
fn grains_play_out_and_are_dropped() {
    let mut engine = eager(4, 0);
    assert_eq!(frame_with_grain(&mut engine, 0, 0.0).len(), 1);
    let reads = frame_without_grain(&mut engine);
    assert_eq!(engine.grain_count(), 1);
    assert_eq!(reads.len(), 1);
    assert_eq!(reads[0].frame.0, 2.0);
    assert_eq!(reads[0].phase, 2);
    // Two reads have finished a grain of four frames.
    assert_eq!(engine.grain_count(), 1);
    assert!(frame_without_grain(&mut engine).is_empty());
    assert_eq!(engine.grain_count(), 0);
}

#[test]
fn grains_decay_after_the_gate_closes() {
    let mut engine = eager(8, 0);
    frame_with_grain(&mut engine, 0, 0.0);
    engine.update_params(None, Some(false));
    assert!(!engine.gate());
    let mut reads = 0;
    for _ in 0..10 {
        assert!(engine.schedule_with(None, POINT).is_empty());
        engine.spawn(&vec![(3, 0.0)]);
        reads += engine.read_grains().len();
    }
    assert_eq!(reads, 3);
    assert_eq!(engine.grain_count(), 0);
}

#[test]
fn triggers_wait_while_the_gate_is_closed() {
    let mut engine = engine();
    engine.update_params(Some(settings(8, 0, 2)), Some(false));
    let points = PointSet { points: vec![(250.0, 10.0)], max_height: 10.0 };
    assert!(engine.schedule(Some(points)).is_empty());
    assert!(engine.schedule(None).is_empty());
    assert!(engine.schedule(None).is_empty());
    engine.update_params(None, Some(true));
    let triggers = engine.schedule(None);
    // Frames 0 and 2 triggered; frame 3 hands both out.
    assert_eq!(triggers.len(), 2);
    assert_eq!(triggers[0].x, 250.0);
    assert_eq!(triggers[0].y, 10.0);
    assert_eq!(triggers[0].max_height, 10.0);
    let triggers = engine.schedule(None);
    assert_eq!(triggers.len(), 1);
}

#[test]
fn schedule_hands_out_triggers_at_the_period_in_force() {
    let mut engine = engine();
    engine.update_params(Some(settings(8, 0, 3)), None);
    let mut points = Some(PointSet { points: vec![(1.0, 2.0)], max_height: 2.0 });
    let mut fired = Vec::new();
    for frame in 0..10 {
        if !engine.schedule(points.take()).is_empty() {
            fired.push(frame);
        }
    }
    assert_eq!(fired, vec![0, 3, 6, 9]);
}

#[test]
fn schedule_with_takes_its_point_only_when_the_sequencer_is_due() {
    let mut engine = engine();
    engine.update_params(Some(settings(8, 0, 3)), None);
    let mut fired = Vec::new();
    for frame in 0..7 {
        let triggers = engine.schedule_with(None, Some((frame as f32, 1.0)));
        for trigger in &triggers {
            fired.push(trigger.x);
        }
    }
    assert_eq!(fired, vec![0.0, 3.0, 6.0]);
}

#[test]
fn scanning_moves_the_start_one_frame_per_frame() {
    let mut engine = engine();
    let mut params = settings(4, 100, 1);
    params.scan = Some(true);
    engine.update_params(Some(params), None);
    assert!(engine.scan());
    for frame in 0..5 {
        let reads = frame_with_grain(&mut engine, 0, 0.0);
        assert_eq!(engine.params().start, 101 + frame);
        assert_eq!(reads.last().unwrap().frame.0, (100 + frame) as f32);
    }
    // Settings without a word on scanning leave it on.
    engine.update_params(Some(settings(4, 7, 10)), None);
    assert!(engine.scan());
    assert_eq!(engine.params().start, 7);
    let mut off = settings(4, 7, 10);
    off.scan = Some(false);
    engine.update_params(Some(off), None);
    assert!(!engine.scan());
    engine.schedule(None);
    engine.spawn(&Vec::new());
    assert_eq!(engine.params().start, 7);
}

#[test]
fn scanning_goes_on_while_the_gate_is_closed() {
    let mut engine = engine();
    let mut on = settings(4, 7, 10);
    on.scan = Some(true);
    engine.update_params(Some(on), Some(false));
    for frame in 0..6 {
        assert!(engine.schedule_with(None, POINT).is_empty());
        engine.spawn(&vec![(0, 0.0)]);
        assert!(engine.read_grains().is_empty());
        assert_eq!(engine.params().start, 8 + frame);
        assert_eq!(engine.grain_count(), 0);
    }
}

#[test]
fn scanning_stops_at_the_largest_start() {
    let mut engine = engine();
    let mut on = settings(4, usize::MAX - 1, 10);
    on.scan = Some(true);
    engine.update_params(Some(on), None);
    frame_without_grain(&mut engine);
    assert_eq!(engine.params().start, usize::MAX);
    frame_without_grain(&mut engine);
    assert_eq!(engine.params().start, usize::MAX);
}

#[test]
fn settings_that_name_another_source_ask_for_a_reload() {
    let mut engine = engine();
    // The settings in force name the default source.
    assert!(!engine.update_params(Some(settings(4, 0, 10)), None));
    assert_eq!(engine.path(), "source.wav");
    let mut other = settings(4, 0, 10);
    other.file = String::from("other.wav");
    assert!(engine.update_params(Some(other), None));
    assert_eq!(engine.path(), "other.wav");
    assert_eq!(engine.params().file, "other.wav");
    let mut same = settings(4, 0, 10);
    same.file = String::from("other.wav");
    assert!(!engine.update_params(Some(same), None));
    assert!(!engine.update_params(None, None));
}

#[test]
fn settings_without_a_grain_length_get_one_frame() {
    let mut engine = eager(0, 0);
    assert_eq!(engine.params().grain_length, 1);
    assert_eq!(frame_with_grain(&mut engine, 0, 0.0).len(), 1);
    engine.schedule_with(None, None);
    assert_eq!(engine.grain_count(), 0);
}

#[test]
fn spawn_stops_at_the_largest_offset() {
    let mut engine = eager(4, usize::MAX - 1);
    let reads = frame_with_grain(&mut engine, 5, 0.0);
    assert_eq!(reads[0].frame.0, (usize::MAX % 1000) as f32);
}

#[test]
fn spawn_grain_at_adds_a_grain_of_the_length_in_force() {
    let mut engine = engine();
    engine.update_params(Some(settings(6, 0, 10)), Some(false));
    engine.compact();
    assert_eq!(engine.grain_count(), 0);
    engine.spawn_grain_at(998, 0.25);
    let reads = engine.read_grains();
    assert_eq!(reads.len(), 1);
    assert_eq!(reads[0].frame.0, 998.0);
    assert_eq!(reads[0].length, 6);
    assert_eq!(reads[0].pan, 0.25);
    let reads = engine.read_grains();
    assert_eq!(reads[0].frame.0, 0.0);
}

#[test]
fn engine_without_a_source_reads_nothing() {
    let mut engine: GranularEngine<f32> = GranularEngine::new(String::from("a.wav"), 0.7, 0.0);
    engine.update_params(Some(settings(8, 0, 1)), None);
    assert!(frame_with_grain(&mut engine, 0, 0.0).is_empty());
    assert!(frame_with_grain(&mut engine, 1, 0.0).is_empty());
    assert_eq!(engine.grain_count(), 2);
    for _ in 0..3 {
        assert!(frame_without_grain(&mut engine).is_empty());
        assert_eq!(engine.grain_count(), 2);
    }
    engine.load(ramp(10), 44000);
    assert_eq!(engine.read_grains().len(), 2);
}
