pub mod grain;
pub mod sequencer;

use vstd::prelude::*;
use crate::dsp::StereoFrame;
use crate::granular::grain::{
    all_finished, lemma_nothing_live, live, read_all, readings, retain_live, stepped, Grain,
    GrainRead, DEFAULT_LENGTH,
};
use crate::granular::sequencer::{PointSet, Sequencer, SequencerView, Trigger};

verus! {

/// The number of finished grains a new engine holds, to make room for the
/// grains to come.
pub const POOL_SIZE: usize = 64;

/// The number of frames between two triggers that a new engine starts with:
/// one trigger per second at 44000 frames per second.
pub const DEFAULT_PERIOD: usize = 44000;

/// The width, in frames, of the window in which grains start, that a new
/// engine starts with.
pub const DEFAULT_SPREAD: usize = 88000;

/// `n`, or the largest `usize` where `n` is beyond it.
pub open spec fn clip(n: int) -> usize {
    if n > usize::MAX {
        usize::MAX
    } else {
        n as usize
    }
}

/// The settings of a granular engine.
#[derive(Debug)]
pub struct GranularParams<S> {
    /// The number of frames a grain plays for.
    pub grain_length: usize,
    /// The width, in frames, of the window in which grains start.
    pub grain_spread: usize,
    pub gain: S,
    /// The offset into the source at which that window begins.
    pub start: usize,
    /// Switches scanning on or off; `None` leaves it as it is.
    pub scan: Option<bool>,
    /// The name of the source the grains are cut from.
    pub file: String,
    /// The number of frames from one trigger to the next.
    pub period: usize,
}

/// The settings of a granular engine as mathematics.
pub struct GranularParamsView<S> {
    pub grain_length: usize,
    pub grain_spread: usize,
    pub gain: S,
    pub start: usize,
    pub scan: Option<bool>,
    pub file: Seq<char>,
    pub period: usize,
}

impl<S> View for GranularParams<S> {
    type V = GranularParamsView<S>;

    open spec fn view(&self) -> GranularParamsView<S> {
        GranularParamsView {
            grain_length: self.grain_length,
            grain_spread: self.grain_spread,
            gain: self.gain,
            start: self.start,
            scan: self.scan,
            file: self.file@,
            period: self.period,
        }
    }
}

impl<S> GranularParamsView<S> {
    /// The settings a new engine starts with, at the given gain.
    pub open spec fn initial(gain: S) -> Self {
        GranularParamsView {
            grain_length: DEFAULT_LENGTH,
            grain_spread: DEFAULT_SPREAD,
            gain,
            start: 0,
            scan: None,
            file: "assets/audio/handpan_trimmed.wav"@,
            period: DEFAULT_PERIOD,
        }
    }

    /// The settings as an engine keeps them: a grain is at least one frame
    /// long.
    pub open spec fn validated(self) -> Self {
        GranularParamsView {
            grain_length: if self.grain_length == 0 {
                1
            } else {
                self.grain_length
            },
            ..self
        }
    }
}

/// What `params` is as mathematics, where there are any.
pub open spec fn params_view<S>(params: Option<GranularParams<S>>) -> Option<
    GranularParamsView<S>,
> {
    match params {
        Some(p) => Some(p@),
        None => None,
    }
}

/// What one frame brings to an engine from outside.
pub struct FrameInput<S> {
    pub params: Option<GranularParamsView<S>>,
    pub gate: Option<bool>,
    /// A source that was loaded because the settings named a new one.
    pub loaded: Option<(Seq<StereoFrame<S>>, u32)>,
    pub points: Option<PointSet<S>>,
    /// The point that the sequencer picks, if it is due.
    pub choice: Option<(S, S)>,
    /// Where the grains that the frame's triggers ask for begin, as an
    /// offset into the start window, and their pan.
    pub placements: Seq<(usize, S)>,
}

/// The state of a granular engine as mathematics.
pub struct EngineView<S> {
    pub path: Seq<char>,
    pub samples: Seq<StereoFrame<S>>,
    pub grains: Seq<Grain<S>>,
    pub params: GranularParamsView<S>,
    pub gate: bool,
    pub sr: u32,
    pub scan: bool,
    pub seq: SequencerView<S>,
    /// The number of triggers that were handed out for this frame and are
    /// yet to be placed.
    pub awaiting: nat,
}

impl<S> EngineView<S> {
    /// Whether new settings name another source than the one in use.
    pub open spec fn renames_source(self, params: Option<GranularParamsView<S>>) -> bool {
        params matches Some(p) && p.file != self.params.file
    }

    /// New settings replace the old ones, validated. They set the path
    /// where they name another source, the scan switch where they carry
    /// one, and the sequencer's period. A message for its gate opens or closes it.
    pub open spec fn update_params(
        self,
        params: Option<GranularParamsView<S>>,
        gate: Option<bool>,
    ) -> Self {
        let set = match params {
            Some(p) => EngineView {
                path: if p.file != self.params.file {
                    p.file
                } else {
                    self.path
                },
                scan: match p.scan {
                    Some(scan) => scan,
                    None => self.scan,
                },
                seq: SequencerView { period: p.period as nat, ..self.seq },
                params: p.validated(),
                ..self
            },
            None => self,
        };
        match gate {
            Some(gate) => EngineView { gate, ..set },
            None => set,
        }
    }

    /// The engine with another source, recorded at `sr` frames per second.
    pub open spec fn load(self, samples: Seq<StereoFrame<S>>, sr: u32) -> Self {
        EngineView { samples, sr, ..self }
    }

    /// The beginning of a frame: the sequencer runs for one frame and the
    /// finished grains are dropped. With an open gate, the triggers that are
    /// queued are handed out, and the engine awaits a placement for each of
    /// them; with a closed gate, they stay queued.
    pub open spec fn schedule(self, points: Option<PointSet<S>>, choice: Option<(S, S)>) -> (
        Self,
        Seq<Trigger<S>>,
    ) {
        let seq = self.seq.update(points, choice);
        if self.gate {
            (
                EngineView {
                    seq: seq.drained(),
                    grains: live(self.grains),
                    awaiting: seq.events.len(),
                    ..self
                },
                seq.events,
            )
        } else {
            (EngineView { seq, grains: live(self.grains), awaiting: 0, ..self }, Seq::empty())
        }
    }

    /// The grain that a trigger placed at `placement` asks for.
    pub open spec fn place(self, placement: (usize, S)) -> Grain<S> {
        Grain::fresh(
            self.params.grain_length,
            clip(self.params.start + placement.0),
            placement.1,
        )
    }

    /// The placements that count: with an open gate one for each trigger
    /// that was handed out, in their order, and none with a closed gate.
    pub open spec fn placed(self, placements: Seq<(usize, S)>) -> Seq<(usize, S)> {
        if !self.gate {
            Seq::empty()
        } else if placements.len() <= self.awaiting {
            placements
        } else {
            placements.take(self.awaiting as int)
        }
    }

    /// One grain joins the others for each placement that counts, and no
    /// trigger is awaited any longer. Then a scanning engine moves its start
    /// window one frame on, whether its gate is open or closed.
    pub open spec fn spawn(self, placements: Seq<(usize, S)>) -> Self {
        EngineView {
            grains: self.grains + self.placed(placements).map_values(
                |p: (usize, S)| self.place(p),
            ),
            awaiting: 0,
            params: GranularParamsView {
                start: if self.scan {
                    clip(self.params.start + 1)
                } else {
                    self.params.start
                },
                ..self.params
            },
            ..self
        }
    }

    /// Every grain is read once: what the live ones yield, in their order,
    /// and the engine with their cursors moved on. Without a source there
    /// is nothing to read, and nothing moves.
    pub open spec fn read_grains(self) -> (Self, Seq<GrainRead<S>>) {
        if self.samples.len() == 0 {
            (self, Seq::empty())
        } else {
            (
                EngineView { grains: stepped(self.grains), ..self },
                readings(self.grains, self.samples),
            )
        }
    }

    /// A whole frame: the messages, the source they may have asked for, the
    /// sequencer, the new grains, and the read of all grains.
    pub open spec fn frame(self, input: FrameInput<S>) -> (Self, Seq<GrainRead<S>>) {
        let updated = self.update_params(input.params, input.gate);
        let loaded = match input.loaded {
            Some((samples, sr)) => updated.load(samples, sr),
            None => updated,
        };
        loaded.schedule(input.points, input.choice).0.spawn(input.placements).read_grains()
    }

    /// The engine after the frames that `inputs` describe.
    pub open spec fn run(self, inputs: Seq<FrameInput<S>>) -> Self
        decreases inputs.len(),
    {
        if inputs.len() == 0 {
            self
        } else {
            self.run(inputs.drop_last()).frame(inputs.last()).0
        }
    }

    /// Its gate is closed and no grain is live.
    pub open spec fn idle(self) -> bool {
        &&& !self.gate
        &&& all_finished(self.grains)
    }
}

/// An engine whose gate is closed and that has no live grain reads nothing in
/// its next frame, whatever the frame brings but a message that opens the
/// gate, and is left with its gate closed and without any grain.
pub proof fn lemma_idle_frame<S>(engine: EngineView<S>, input: FrameInput<S>)
    requires
        engine.idle(),
        input.gate != Some(true),
    ensures
        engine.frame(input).1.len() == 0,
        engine.frame(input).0.grains.len() == 0,
        engine.frame(input).0.idle(),
{
    lemma_nothing_live(engine.grains);
    let updated = engine.update_params(input.params, input.gate);
    let loaded = match input.loaded {
        Some((samples, sr)) => updated.load(samples, sr),
        None => updated,
    };
    assert(loaded.grains == engine.grains);
    let spawned = loaded.schedule(input.points, input.choice).0.spawn(input.placements);
    assert(spawned.grains.len() == 0);
}

/// Exactly one grain is spawned for each trigger that a frame hands out: an
/// engine never spawns more grains than it handed out triggers, and where
/// each trigger gets its placement it spawns as many.
pub proof fn lemma_one_grain_per_trigger<S>(
    engine: EngineView<S>,
    points: Option<PointSet<S>>,
    choice: Option<(S, S)>,
    placements: Seq<(usize, S)>,
)
    ensures
        ({
            let (scheduled, triggers) = engine.schedule(points, choice);
            let spawned = scheduled.spawn(placements);
            &&& spawned.grains.len() <= live(engine.grains).len() + triggers.len()
            &&& placements.len() == triggers.len() ==> spawned.grains.len() == live(
                engine.grains,
            ).len() + triggers.len()
            &&& spawned.grains.subrange(0, live(engine.grains).len() as int) == live(engine.grains)
        }),
{
    let (scheduled, triggers) = engine.schedule(points, choice);
    let spawned = scheduled.spawn(placements);
    assert(spawned.grains.subrange(0, live(engine.grains).len() as int) =~= live(engine.grains));
}

/// An engine whose gate is closed and that has no live grain stays silent: as
/// long as no message opens its gate, no frame reads anything.
pub proof fn lemma_silence_while_gate_off<S>(engine: EngineView<S>, inputs: Seq<FrameInput<S>>)
    requires
        engine.idle(),
        forall|i: int| 0 <= i < inputs.len() ==> (#[trigger] inputs[i]).gate != Some(true),
    ensures
        engine.run(inputs).idle(),
        forall|i: int|
            0 <= i < inputs.len() ==> (#[trigger] engine.run(inputs.take(i)).frame(inputs[i])).1.len()
                == 0,
    decreases inputs.len(),
{
    if inputs.len() > 0 {
        let before = inputs.drop_last();
        lemma_silence_while_gate_off(engine, before);
        lemma_idle_frame(engine.run(before), inputs.last());
        assert forall|i: int| 0 <= i < inputs.len() implies (#[trigger] engine.run(
            inputs.take(i),
        ).frame(inputs[i])).1.len() == 0 by {
            if i < inputs.len() - 1 {
                assert(inputs.take(i) =~= before.take(i));
                assert(inputs[i] == before[i]);
            } else {
                assert(inputs.take(i) =~= before);
            }
        }
    }
}

/// The name of the source that the settings of a new engine point to.
pub fn default_source() -> (name: String)
    ensures
        name@ == "assets/audio/handpan_trimmed.wav"@,
{
    "assets/audio/handpan_trimmed.wav".to_owned()
}

impl<S: Copy> GranularParams<S> {
    /// The settings a new engine starts with, at the given gain.
    pub fn new(gain: S) -> (params: Self)
        ensures
            params@ == GranularParamsView::initial(gain),
    {
        GranularParams {
            grain_length: DEFAULT_LENGTH,
            grain_spread: DEFAULT_SPREAD,
            gain,
            start: 0,
            scan: None,
            file: default_source(),
            period: DEFAULT_PERIOD,
        }
    }
}

/// Cuts a source into grains at the places and times that a sequencer asks
/// for. The engine decides which grains live and which frames they read;
/// windowing, panning and summing what was read is its caller's.
#[derive(Debug)]
pub struct GranularEngine<S> {
    path: String,
    samples: Vec<StereoFrame<S>>,
    grains: Vec<Grain<S>>,
    params: GranularParams<S>,
    gate: bool,
    sr: u32,
    scan: bool,
    seq: Sequencer<S>,
    awaiting: usize,
}

impl<S: Copy> View for GranularEngine<S> {
    type V = EngineView<S>;

    closed spec fn view(&self) -> EngineView<S> {
        EngineView {
            path: self.path@,
            samples: self.samples@,
            grains: self.grains@,
            params: self.params@,
            gate: self.gate,
            sr: self.sr,
            scan: self.scan,
            seq: self.seq@,
            awaiting: self.awaiting as nat,
        }
    }
}

impl<S: Copy> GranularEngine<S> {
    /// An engine for the source at `path`, which is yet to be loaded. Its
    /// gate is open, it does not scan, and its sequencer has no points and
    /// triggers once per `DEFAULT_PERIOD`. `rest` is the sample of a signal
    /// at rest.
    pub fn new(path: String, gain: S, rest: S) -> (engine: Self)
        ensures
            engine@.path == path@,
            engine@.samples.len() == 0,
            engine@.grains.len() == POOL_SIZE,
            all_finished(engine@.grains),
            engine@.params == GranularParamsView::initial(gain),
            engine@.gate,
            engine@.sr == 0,
            !engine@.scan,
            engine@.seq == (SequencerView {
                points: Seq::empty(),
                max_height: rest,
                period: DEFAULT_PERIOD as nat,
                timer: 0,
                events: Seq::empty(),
            }),
            engine@.awaiting == 0,
    {
        let mut grains: Vec<Grain<S>> = Vec::new();
        while grains.len() < POOL_SIZE
            invariant
                grains@.len() <= POOL_SIZE,
                all_finished(grains@),
            decreases POOL_SIZE - grains@.len(),
        {
            grains.push(Grain::finished(rest));
        }
        GranularEngine {
            path,
            samples: Vec::new(),
            grains,
            params: GranularParams::new(gain),
            gate: true,
            sr: 0,
            scan: false,
            seq: Sequencer::new(Vec::new(), rest, DEFAULT_PERIOD),
            awaiting: 0,
        }
    }

    /// Replaces the source by the frames decoded from the file at `path`,
    /// at the rate they were recorded at.
    pub fn load(&mut self, samples: Vec<StereoFrame<S>>, sr: u32)
        ensures
            final(self)@ == old(self)@.load(samples@, sr),
    {
        self.samples = samples;
        self.sr = sr;
    }

    /// The name of the source in use, or of the one to load.
    pub fn path(&self) -> (path: &String)
        ensures
            path@ == self@.path,
    {
        &self.path
    }

    /// The settings in force.
    pub fn params(&self) -> (params: &GranularParams<S>)
        ensures
            params@ == self@.params,
    {
        &self.params
    }

    /// Whether new grains are spawned.
    pub fn gate(&self) -> (gate: bool)
        ensures
            gate == self@.gate,
    {
        self.gate
    }

    /// Whether the start window moves through the source.
    pub fn scan(&self) -> (scan: bool)
        ensures
            scan == self@.scan,
    {
        self.scan
    }

    /// The rate, in frames per second, of the source in use.
    pub fn sample_rate(&self) -> (sr: u32)
        ensures
            sr == self@.sr,
    {
        self.sr
    }

    /// The number of frames of the source in use.
    pub fn buffer_size(&self) -> (size: usize)
        ensures
            size == self@.samples.len(),
    {
        self.samples.len()
    }

    /// The number of grains in the pool, live or finished.
    pub fn grain_count(&self) -> (count: usize)
        ensures
            count == self@.grains.len(),
    {
        self.grains.len()
    }

    /// Takes in the messages that arrived since the last frame, at most one
    /// of each kind, and tells whether the settings name a source that is
    /// yet to be loaded.
    pub fn update_params(&mut self, params: Option<GranularParams<S>>, gate: Option<bool>) -> (reload:
        bool)
        ensures
            final(self)@ == old(self)@.update_params(params_view(params), gate),
            reload == old(self)@.renames_source(params_view(params)),
    {
        let mut reload = false;
        if let Some(params) = params {
            let mut params = params;
            if !(params.file == self.params.file) {
                self.path = params.file.clone();
                reload = true;
            }
            if let Some(scan) = params.scan {
                self.scan = scan;
            }
            self.seq.set_period(params.period);
            if params.grain_length == 0 {
                params.grain_length = 1;
            }
            self.params = params;
        }
        if let Some(gate) = gate {
            self.gate = gate;
        }
        reload
    }

    /// Adds a grain of the length in force that begins `start` frames into
    /// the source.
    pub fn spawn_grain_at(&mut self, start: usize, pan: S)
        ensures
            final(self)@ == (EngineView {
                grains: old(self)@.grains.push(
                    Grain::fresh(old(self)@.params.grain_length, start, pan),
                ),
                ..old(self)@
            }),
    {
        self.grains.push(Grain::new(self.params.grain_length, start, pan));
    }

    /// Drops the finished grains and keeps the live ones in their order.
    pub fn compact(&mut self)
        ensures
            final(self)@ == (EngineView { grains: live(old(self)@.grains), ..old(self)@ }),
    {
        retain_live(&mut self.grains);
    }

    /// Begins a frame with `choice` as the point that the sequencer picks
    /// if it is due: runs the sequencer for one frame, taking in the new
    /// point set if there is one, drops the finished grains and, with its
    /// gate open, hands out the triggers that are queued.
    pub fn schedule_with(&mut self, points: Option<PointSet<S>>, choice: Option<(S, S)>) -> (triggers:
        Vec<Trigger<S>>)
        ensures
            (final(self)@, triggers@) == old(self)@.schedule(points, choice),
    {
        self.seq.update_points(points);
        self.seq.tick(choice);
        self.compact();
        let triggers = if self.gate {
            self.seq.get_events()
        } else {
            Vec::new()
        };
        self.awaiting = triggers.len();
        triggers
    }

    /// Begins a frame as `schedule_with` does, with a point picked at
    /// random where the sequencer is due.
    pub fn schedule(&mut self, points: Option<PointSet<S>>) -> (triggers: Vec<Trigger<S>>)
        ensures
            exists|choice: Option<(S, S)>|
                old(self)@.seq.update_points(points).may_tick(choice) && (final(self)@, triggers@)
                    == #[trigger] old(self)@.schedule(points, choice),
    {
        self.seq.update_points(points);
        let choice = self.seq.pick();
        let ghost taken = self@;
        let triggers = self.schedule_with(None, choice);
        assert((self@, triggers@) == old(self)@.schedule(points, choice)) by {
            assert(taken.seq.update_points(None) == taken.seq);
            assert(taken.seq == old(self)@.seq.update_points(points));
        }
        triggers
    }

    /// Ends the scheduling of a frame. Each placement, an offset into the
    /// start window and a pan, places the grain of one of the triggers that
    /// `schedule` handed out, in their order; placements beyond their
    /// number, and all placements while its gate is closed, are left aside.
    /// Then the start window of a scanning engine moves one frame on.
    pub fn spawn(&mut self, placements: &Vec<(usize, S)>)
        ensures
            final(self)@ == old(self)@.spawn(placements@),
    {
        let count = if !self.gate {
            0
        } else if placements.len() <= self.awaiting {
            placements.len()
        } else {
            self.awaiting
        };
        {
            let ghost place = |p: (usize, S)| old(self)@.place(p);
            let mut i: usize = 0;
            proof {
                assert(self@.grains =~= old(self)@.grains + placements@.take(0).map_values(place));
            }
            while i < count
                invariant
                    i <= count <= placements@.len(),
                    place == |p: (usize, S)| old(self)@.place(p),
                    self@ == (EngineView {
                        grains: old(self)@.grains + placements@.take(i as int).map_values(place),
                        ..old(self)@
                    }),
                decreases count - i,
            {
                let (offset, pan) = placements[i];
                let start = self.params.start.saturating_add(offset);
                self.spawn_grain_at(start, pan);
                proof {
                    assert(placements@.take(i + 1) =~= placements@.take(i as int).push(
                        placements@[i as int],
                    ));
                    assert(self@.grains =~= old(self)@.grains + placements@.take(i + 1).map_values(
                        place,
                    ));
                }
                i += 1;
            }
            proof {
                assert(placements@.take(i as int) =~= old(self)@.placed(placements@));
            }
        }
        self.awaiting = 0;
        if self.scan {
            self.params.start = self.params.start.saturating_add(1);
        }
    }

    /// Reads every grain once and hands out what the live ones yield, in
    /// their order. Without a source nothing is read.
    pub fn read_grains(&mut self) -> (reads: Vec<GrainRead<S>>)
        ensures
            (final(self)@, reads@) == old(self)@.read_grains(),
    {
        if self.samples.len() == 0 {
            Vec::new()
        } else {
            read_all(&mut self.grains, self.samples.as_slice())
        }
    }
}

} // verus!
