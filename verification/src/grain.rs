use vstd::prelude::*;
use crate::delay::{DelayParams, FeedbackParams, StereoDelay, StereoDelayView, Tap};
use crate::dsp::StereoFrame;
use crate::granular::clip;
use crate::granular::grain::{
    all_finished, lemma_nothing_live, live, read_all, readings, retain_live, stepped, Grain,
    GrainRead, DEFAULT_LENGTH,
};

verus! {

/// The number of frames between two grains that a new engine starts with.
pub const DEFAULT_DENSITY: usize = 44000;

/// The settings of a granular engine that spawns its grains on a timer.
#[derive(Debug)]
pub struct GranularParams<S> {
    /// The number of frames from one grain to the next.
    pub grain_density: usize,
    /// The number of frames a grain plays for.
    pub grain_length: usize,
    /// How far the start of a grain may stray, as a share of twice the
    /// grain's length.
    pub grain_spread: S,
    /// How far the pan of a grain may stray from the centre.
    pub pan_spread: S,
    pub gain: S,
    /// The offset into the source from which grains stray.
    pub start: usize,
    /// Switches scanning on or off; `None` leaves it as it is.
    pub scan: Option<bool>,
    /// The name of the source the grains are cut from.
    pub file: String,
}

/// The settings of a timer-driven engine as mathematics.
pub struct GranularParamsView<S> {
    pub grain_density: usize,
    pub grain_length: usize,
    pub grain_spread: S,
    pub pan_spread: S,
    pub gain: S,
    pub start: usize,
    pub scan: Option<bool>,
    pub file: Seq<char>,
}

impl<S> View for GranularParams<S> {
    type V = GranularParamsView<S>;

    open spec fn view(&self) -> GranularParamsView<S> {
        GranularParamsView {
            grain_density: self.grain_density,
            grain_length: self.grain_length,
            grain_spread: self.grain_spread,
            pan_spread: self.pan_spread,
            gain: self.gain,
            start: self.start,
            scan: self.scan,
            file: self.file@,
        }
    }
}

impl<S> GranularParamsView<S> {
    /// The settings a new engine starts with, at the given gain and with
    /// nothing straying: `rest` is the spread of no spread at all.
    pub open spec fn initial(gain: S, rest: S) -> Self {
        GranularParamsView {
            grain_density: DEFAULT_DENSITY,
            grain_length: DEFAULT_LENGTH,
            grain_spread: rest,
            pan_spread: rest,
            gain,
            start: 0,
            scan: None,
            file: "assets/audio/handpan.wav"@,
        }
    }

    /// The settings as an engine keeps them: a grain is at least one frame
    /// long.
    pub open spec fn validated(self) -> Self {
        GranularParamsView {
            grain_length: if self.grain_length == 0 {
                1
            } else {
                self.grain_length
            },
            ..self
        }
    }
}

/// What `params` is as mathematics, where there are any.
pub open spec fn params_view<S>(params: Option<GranularParams<S>>) -> Option<
    GranularParamsView<S>,
> {
    match params {
        Some(p) => Some(p@),
        None => None,
    }
}

impl<S: Copy> GranularParams<S> {
    /// The settings a new engine starts with.
    pub fn new(gain: S, rest: S) -> (params: Self)
        ensures
            params@ == GranularParamsView::initial(gain, rest),
    {
        GranularParams {
            grain_density: DEFAULT_DENSITY,
            grain_length: DEFAULT_LENGTH,
            grain_spread: rest,
            pan_spread: rest,
            gain,
            start: 0,
            scan: None,
            file: "assets/audio/handpan.wav".to_owned(),
        }
    }
}

/// What one frame brings to a timer-driven engine from outside.
pub struct FrameInput<S> {
    pub params: Option<GranularParamsView<S>>,
    pub gate: Option<bool>,
    /// A source that was loaded because the settings named a new one.
    pub loaded: Option<(Seq<StereoFrame<S>>, u32)>,
    /// Where the grain begins that is spawned if one is due, as an offset
    /// from the start in force, and its pan.
    pub placement: Option<(usize, S)>,
}

/// The state of a timer-driven engine as mathematics.
pub struct EngineView<S> {
    pub path: Seq<char>,
    pub samples: Seq<StereoFrame<S>>,
    pub grains: Seq<Grain<S>>,
    pub params: GranularParamsView<S>,
    pub gate: bool,
    pub delay: StereoDelayView<S>,
    pub sr: u32,
    /// The number of frames until the next grain.
    pub spawn_timer: nat,
    pub scan: bool,
}

impl<S> EngineView<S> {
    /// Whether new settings name another source than the one in use.
    pub open spec fn renames_source(self, params: Option<GranularParamsView<S>>) -> bool {
        params matches Some(p) && p.file != self.params.file
    }

    /// New settings replace the old ones, validated. They set the path
    /// where they name another source, and the scan switch where they carry
    /// one. A message for its gate opens or closes it.
    pub open spec fn update_params(
        self,
        params: Option<GranularParamsView<S>>,
        gate: Option<bool>,
    ) -> Self {
        let set = match params {
            Some(p) => EngineView {
                path: if p.file != self.params.file {
                    p.file
                } else {
                    self.path
                },
                scan: match p.scan {
                    Some(scan) => scan,
                    None => self.scan,
                },
                params: p.validated(),
                ..self
            },
            None => self,
        };
        match gate {
            Some(gate) => EngineView { gate, ..set },
            None => set,
        }
    }

    /// The engine with another source, recorded at `sr` frames per second.
    pub open spec fn load(self, samples: Seq<StereoFrame<S>>, sr: u32) -> Self {
        EngineView { samples, sr, ..self }
    }

    /// The beginning of a frame: the finished grains are dropped, and with
    /// an open gate the timer counts one frame down, as far as there is
    /// anything left to count.
    pub open spec fn schedule(self) -> Self {
        EngineView {
            grains: live(self.grains),
            spawn_timer: if self.gate && self.spawn_timer > 0 {
                (self.spawn_timer - 1) as nat
            } else {
                self.spawn_timer
            },
            ..self
        }
    }

    /// Whether a grain is to be spawned in this frame: its gate is open and
    /// the timer has run out.
    pub open spec fn spawn_due(self) -> bool {
        self.gate && self.spawn_timer == 0
    }

    /// A grain joins the others, `jitter` frames from the start in force,
    /// and the timer starts again from the density in force.
    pub open spec fn spawn_grain(self, jitter: usize, pan: S) -> Self {
        EngineView {
            grains: self.grains.push(
                Grain::fresh(self.params.grain_length, clip(self.params.start + jitter), pan),
            ),
            spawn_timer: self.params.grain_density as nat,
            ..self
        }
    }

    /// With an open gate, the grain that is due is spawned where
    /// `placement` puts it. Then a scanning engine moves its start one frame
    /// on, whether its gate is open or closed.
    pub open spec fn spawn(self, placement: Option<(usize, S)>) -> Self {
        let spawned = match placement {
            Some((jitter, pan)) if self.spawn_due() => self.spawn_grain(jitter, pan),
            _ => self,
        };
        EngineView {
            params: GranularParamsView {
                start: if spawned.scan {
                    clip(spawned.params.start + 1)
                } else {
                    spawned.params.start
                },
                ..spawned.params
            },
            ..spawned
        }
    }

    /// Every grain is read once: what the live ones yield, in their order,
    /// and the engine with their cursors moved on. Without a source there
    /// is nothing to read, and nothing moves.
    pub open spec fn read_grains(self) -> (Self, Seq<GrainRead<S>>) {
        if self.samples.len() == 0 {
            (self, Seq::empty())
        } else {
            (
                EngineView { grains: stepped(self.grains), ..self },
                readings(self.grains, self.samples),
            )
        }
    }

    /// A whole frame of the grains: the messages, the source they may have
    /// asked for, the timer, the new grain, and the read of all grains.
    pub open spec fn frame(self, input: FrameInput<S>) -> (Self, Seq<GrainRead<S>>) {
        let updated = self.update_params(input.params, input.gate);
        let loaded = match input.loaded {
            Some((samples, sr)) => updated.load(samples, sr),
            None => updated,
        };
        loaded.schedule().spawn(input.placement).read_grains()
    }

    /// The engine after the frames that `inputs` describe.
    pub open spec fn run(self, inputs: Seq<FrameInput<S>>) -> Self
        decreases inputs.len(),
    {
        if inputs.len() == 0 {
            self
        } else {
            self.run(inputs.drop_last()).frame(inputs.last()).0
        }
    }

    /// Its gate is closed and no grain is live.
    pub open spec fn idle(self) -> bool {
        &&& !self.gate
        &&& all_finished(self.grains)
    }
}

/// An engine whose gate is closed and that has no live grain reads nothing
/// in its next frame, whatever the frame brings but a message that opens
/// its gate. It is left with its gate closed and without any grain, and
/// its delay is as it was.
pub proof fn lemma_idle_frame<S>(engine: EngineView<S>, input: FrameInput<S>)
    requires
        engine.idle(),
        input.gate != Some(true),
    ensures
        engine.frame(input).1.len() == 0,
        engine.frame(input).0.grains.len() == 0,
        engine.frame(input).0.idle(),
        engine.frame(input).0.delay == engine.delay,
{
    lemma_nothing_live(engine.grains);
    let updated = engine.update_params(input.params, input.gate);
    let loaded = match input.loaded {
        Some((samples, sr)) => updated.load(samples, sr),
        None => updated,
    };
    assert(loaded.grains == engine.grains);
    let spawned = loaded.schedule().spawn(input.placement);
    assert(spawned.grains.len() == 0);
}

/// An engine whose gate is closed and that has no live grain stays silent:
/// as long as no message opens its gate, no frame reads anything.
pub proof fn lemma_silence_while_gate_off<S>(engine: EngineView<S>, inputs: Seq<FrameInput<S>>)
    requires
        engine.idle(),
        forall|i: int| 0 <= i < inputs.len() ==> (#[trigger] inputs[i]).gate != Some(true),
    ensures
        engine.run(inputs).idle(),
        forall|i: int|
            0 <= i < inputs.len() ==> (#[trigger] engine.run(inputs.take(i)).frame(inputs[i])).1.len()
                == 0,
    decreases inputs.len(),
{
    if inputs.len() > 0 {
        let before = inputs.drop_last();
        lemma_silence_while_gate_off(engine, before);
        lemma_idle_frame(engine.run(before), inputs.last());
        assert forall|i: int| 0 <= i < inputs.len() implies (#[trigger] engine.run(
            inputs.take(i),
        ).frame(inputs[i])).1.len() == 0 by {
            if i < inputs.len() - 1 {
                assert(inputs.take(i) =~= before.take(i));
                assert(inputs[i] == before[i]);
            } else {
                assert(inputs.take(i) =~= before);
            }
        }
    }
}

/// Cuts a source into grains that are spawned on a timer, and passes what
/// they yield through a stereo delay of its own. The engine decides which
/// grains live and which frames they read; where a grain strays to, and
/// windowing, panning and summing what was read, is its caller's.
#[derive(Debug)]
pub struct GranularEngine<S> {
    path: String,
    samples: Vec<StereoFrame<S>>,
    grains: Vec<Grain<S>>,
    params: GranularParams<S>,
    gate: bool,
    delay: StereoDelay<S>,
    sr: u32,
    spawn_timer: usize,
    scan: bool,
}

impl<S: Copy> View for GranularEngine<S> {
    type V = EngineView<S>;

    closed spec fn view(&self) -> EngineView<S> {
        EngineView {
            path: self.path@,
            samples: self.samples@,
            grains: self.grains@,
            params: self.params@,
            gate: self.gate,
            delay: self.delay@,
            sr: self.sr,
            spawn_timer: self.spawn_timer as nat,
            scan: self.scan,
        }
    }
}

impl<S: Copy> GranularEngine<S> {
    /// An engine for the source at `path`, which is yet to be loaded, with
    /// the given settings, validated, and the given delay. Its gate is
    /// open, it does not scan, it holds no grain, and its first grain is
    /// `DEFAULT_DENSITY` frames away.
    pub fn new(path: String, params: GranularParams<S>, delay: StereoDelay<S>) -> (engine: Self)
        requires
            delay@.wf(),
        ensures
            engine@ == (EngineView {
                path: path@,
                samples: Seq::empty(),
                grains: Seq::empty(),
                params: params@.validated(),
                gate: true,
                delay: delay@,
                sr: 0,
                spawn_timer: DEFAULT_DENSITY as nat,
                scan: false,
            }),
    {
        let mut params = params;
        if params.grain_length == 0 {
            params.grain_length = 1;
        }
        GranularEngine {
            path,
            samples: Vec::new(),
            grains: Vec::new(),
            params,
            gate: true,
            delay,
            sr: 0,
            spawn_timer: DEFAULT_DENSITY,
            scan: false,
        }
    }

    /// Replaces the source by the frames decoded from the file at `path`,
    /// at the rate they were recorded at.
    pub fn load(&mut self, samples: Vec<StereoFrame<S>>, sr: u32)
        ensures
            final(self)@ == old(self)@.load(samples@, sr),
    {
        self.samples = samples;
        self.sr = sr;
    }

    /// The name of the source in use, or of the one to load.
    pub fn path(&self) -> (path: &String)
        ensures
            path@ == self@.path,
    {
        &self.path
    }

    /// The settings in force.
    pub fn params(&self) -> (params: &GranularParams<S>)
        ensures
            params@ == self@.params,
    {
        &self.params
    }

    /// The delay that the engine's output passes.
    pub fn delay(&self) -> (delay: &StereoDelay<S>)
        ensures
            delay@ == self@.delay,
    {
        &self.delay
    }

    /// The number of frames of the source in use.
    pub fn buffer_size(&self) -> (size: usize)
        ensures
            size == self@.samples.len(),
    {
        self.samples.len()
    }

    /// The number of grains in the pool, live or finished.
    pub fn grain_count(&self) -> (count: usize)
        ensures
            count == self@.grains.len(),
    {
        self.grains.len()
    }

    /// Takes in the messages that arrived since the last frame, at most one
    /// of each kind, and tells whether the settings name a source that is
    /// yet to be loaded.
    pub fn update_params(&mut self, params: Option<GranularParams<S>>, gate: Option<bool>) -> (reload:
        bool)
        ensures
            final(self)@ == old(self)@.update_params(params_view(params), gate),
            reload == old(self)@.renames_source(params_view(params)),
    {
        let mut reload = false;
        if let Some(params) = params {
            let mut params = params;
            if !(params.file == self.params.file) {
                self.path = params.file.clone();
                reload = true;
            }
            if let Some(scan) = params.scan {
                self.scan = scan;
            }
            if params.grain_length == 0 {
                params.grain_length = 1;
            }
            self.params = params;
        }
        if let Some(gate) = gate {
            self.gate = gate;
        }
        reload
    }

    /// Begins a frame: drops the finished grains, runs the timer for one
    /// frame, and tells whether a grain is due.
    pub fn schedule(&mut self) -> (due: bool)
        ensures
            final(self)@ == old(self)@.schedule(),
            due == final(self)@.spawn_due(),
    {
        retain_live(&mut self.grains);
        if self.gate && self.spawn_timer > 0 {
            self.spawn_timer = self.spawn_timer - 1;
        }
        self.gate && self.spawn_timer == 0
    }

    /// Adds a grain of the length in force that begins `jitter` frames
    /// after the start in force, and starts the timer again.
    pub fn spawn_grain(&mut self, jitter: usize, pan: S)
        ensures
            final(self)@ == old(self)@.spawn_grain(jitter, pan),
    {
        let start = self.params.start.saturating_add(jitter);
        self.grains.push(Grain::new(self.params.grain_length, start, pan));
        self.spawn_timer = self.params.grain_density;
    }

    /// Spawns the grain that is due, if one is and a placement for it is
    /// given, and then moves the start of a scanning engine one frame on.
    pub fn spawn(&mut self, placement: Option<(usize, S)>)
        ensures
            final(self)@ == old(self)@.spawn(placement),
    {
        if self.gate && self.spawn_timer == 0 {
            if let Some((jitter, pan)) = placement {
                self.spawn_grain(jitter, pan);
            }
        }
        if self.scan {
            self.params.start = self.params.start.saturating_add(1);
        }
    }

    /// Reads every grain once and hands out what the live ones yield, in
    /// their order. Without a source nothing is read.
    pub fn read_grains(&mut self) -> (reads: Vec<GrainRead<S>>)
        ensures
            (final(self)@, reads@) == old(self)@.read_grains(),
    {
        if self.samples.len() == 0 {
            Vec::new()
        } else {
            read_all(&mut self.grains, self.samples.as_slice())
        }
    }

    /// Takes in the messages for the delay.
    pub fn update_delay(
        &mut self,
        params: Option<DelayParams<S>>,
        feedback: Option<FeedbackParams<S>>,
    )
        requires
            old(self)@.delay.wf(),
        ensures
            final(self)@ == (EngineView {
                delay: old(self)@.delay.update_params(params, feedback),
                ..old(self)@
            }),
            final(self)@.delay.wf(),
    {
        self.delay.update_params(params, feedback);
    }

    /// Reads both lines of the delay, unless it is bypassed.
    pub fn delay_taps(&self) -> (taps: Option<(Tap<S>, Tap<S>)>)
        requires
            self@.delay.wf(),
        ensures
            taps == self@.delay.taps(),
    {
        self.delay.taps()
    }

    /// Ends a frame of the delay.
    pub fn feed_delay(&mut self, shaped: StereoFrame<S>, frame: StereoFrame<S>)
        requires
            old(self)@.delay.wf(),
        ensures
            final(self)@ == (EngineView {
                delay: old(self)@.delay.feed(shaped, frame),
                ..old(self)@
            }),
            final(self)@.delay.wf(),
    {
        self.delay.feed(shaped, frame);
    }
}

} // verus!
