use vstd::prelude::*;
use crate::dsp::StereoFrame;

verus! {

/// The number of frames a grain's cursor moves on each read: grains play
/// their source at half its rate.
pub const STRIDE: usize = 2;

/// The length, in frames, of a grain that no setting has shaped yet.
pub const DEFAULT_LENGTH: usize = 44000;

/// A playback cursor over a buffer of frames that is shared with other
/// grains.
#[derive(Debug)]
pub struct Grain<S> {
    /// How far the cursor has moved from `start`.
    pub t: usize,
    /// The cursor position at which the grain ends.
    pub length: usize,
    /// The offset into the buffer at which the grain begins.
    pub start: usize,
    pub pan: S,
    /// Set by the read that takes the cursor to `length` or beyond.
    pub finished: bool,
}

impl<S: Copy> Clone for Grain<S> {
    fn clone(&self) -> (copy: Self)
        ensures
            copy == *self,
    {
        *self
    }
}

impl<S: Copy> Copy for Grain<S> {

}

/// What one read of a grain fetched: the frame under the cursor, and what
/// is needed to window and pan it, the cursor position the frame was
/// fetched at and the grain's length and pan.
#[derive(Debug)]
pub struct GrainRead<S> {
    pub frame: StereoFrame<S>,
    pub phase: usize,
    pub length: usize,
    pub pan: S,
}

impl<S: Copy> Clone for GrainRead<S> {
    fn clone(&self) -> (copy: Self)
        ensures
            copy == *self,
    {
        *self
    }
}

impl<S: Copy> Copy for GrainRead<S> {

}

impl<S> Grain<S> {
    /// A grain at the beginning of its life.
    pub open spec fn fresh(length: usize, start: usize, pan: S) -> Self {
        Grain { t: 0, length, start, pan, finished: false }
    }

    /// The buffer index under the cursor. It wraps around the buffer, so
    /// that no offset, however large, points outside it.
    pub open spec fn read_pos(self, buffer_len: nat) -> int {
        (self.start + self.t) % (buffer_len as int)
    }

    /// The grain after a read. The cursor of a live grain moves on by
    /// `STRIDE`, stopping at the largest position there is, and the grain is
    /// finished once the cursor has reached its length. A finished grain
    /// stays as it is.
    pub open spec fn step(self) -> Self {
        if self.finished {
            self
        } else {
            let t = if self.t + STRIDE <= usize::MAX {
                (self.t + STRIDE) as usize
            } else {
                usize::MAX
            };
            Grain { t, finished: t >= self.length, ..self }
        }
    }

    /// The grain after `reads` reads.
    pub open spec fn step_n(self, reads: nat) -> Self
        decreases reads,
    {
        if reads == 0 {
            self
        } else {
            self.step_n((reads - 1) as nat).step()
        }
    }

    /// What a read of the grain yields: nothing once it is finished, and
    /// else the frame under the cursor with the position of that cursor,
    /// at which the frame is to be windowed.
    pub open spec fn reading(self, buffer: Seq<StereoFrame<S>>) -> Option<GrainRead<S>> {
        if self.finished {
            None
        } else {
            Some(
                GrainRead {
                    frame: buffer[self.read_pos(buffer.len())],
                    phase: self.t,
                    length: self.length,
                    pan: self.pan,
                },
            )
        }
    }
}

/// As long as a fresh grain has not been read often enough to take its
/// cursor to its length, the cursor stands at `STRIDE` times the number of
/// reads and the grain is live; from then on the grain is finished.
proof fn lemma_cursor<S>(grain: Grain<S>, reads: nat)
    requires
        grain.t == 0,
        !grain.finished,
    ensures
        reads > 0 && STRIDE * reads >= grain.length ==> grain.step_n(reads).finished,
        STRIDE * reads < grain.length ==> !grain.step_n(reads).finished && grain.step_n(reads).t
            == STRIDE * reads,
        grain.step_n(reads).length == grain.length,
    decreases reads,
{
    if reads > 0 {
        lemma_cursor(grain, (reads - 1) as nat);
    }
}

/// A grain of length `L`, at least one frame, is finished after exactly
/// `L / STRIDE` reads, rounded up, and not before.
pub proof fn lemma_grain_lifecycle<S>(length: usize, start: usize, pan: S, reads: nat)
    requires
        length > 0,
    ensures
        Grain::fresh(length, start, pan).step_n(reads).finished <==> reads >= (length + 1) / 2,
{
    lemma_cursor(Grain::fresh(length, start, pan), reads);
}

/// A grain of no length at all is finished by its first read.
pub proof fn lemma_empty_grain_lifecycle<S>(start: usize, pan: S, reads: nat)
    ensures
        Grain::fresh(0, start, pan).step_n(reads).finished <==> reads >= 1,
{
    lemma_cursor(Grain::fresh(0, start, pan), reads);
}

impl<S: Copy> Grain<S> {
    /// A grain of `length` frames that begins `start` frames into the
    /// buffer.
    pub fn new(length: usize, start: usize, pan: S) -> (grain: Self)
        ensures
            grain == Grain::fresh(length, start, pan),
    {
        Grain { t: 0, length, start, pan, finished: false }
    }

    /// A grain that has played out already; it only holds a place in a
    /// pool.
    pub fn finished(pan: S) -> (grain: Self)
        ensures
            grain == (Grain { finished: true, ..Grain::fresh(DEFAULT_LENGTH, 0, pan) }),
    {
        Grain { t: 0, length: DEFAULT_LENGTH, start: 0, pan, finished: true }
    }

    /// Fetches the frame under the cursor, notes the cursor position for
    /// the window, and then moves the cursor on. A finished grain yields
    /// nothing and stays as it is.
    pub fn read(&mut self, buffer: &[StereoFrame<S>]) -> (out: Option<GrainRead<S>>)
        requires
            buffer@.len() > 0,
        ensures
            out == old(self).reading(buffer@),
            *final(self) == old(self).step(),
    {
        if self.finished {
            return None;
        }
        let wide: u128 = (self.start as u128 + self.t as u128) % (buffer.len() as u128);
        let frame = buffer[wide as usize];
        let phase = self.t;
        self.t = if self.t <= usize::MAX - STRIDE {
            self.t + STRIDE
        } else {
            usize::MAX
        };
        if self.t >= self.length {
            self.finished = true;
        }
        Some(GrainRead { frame, phase, length: self.length, pan: self.pan })
    }
}

/// The live grains of a pool, in their order.
pub open spec fn live<S>(grains: Seq<Grain<S>>) -> Seq<Grain<S>> {
    grains.filter(|g: Grain<S>| !g.finished)
}

/// No grain of the pool is live.
pub open spec fn all_finished<S>(grains: Seq<Grain<S>>) -> bool {
    forall|i: int| 0 <= i < grains.len() ==> (#[trigger] grains[i]).finished
}

/// The pool after each of its grains was read once.
pub open spec fn stepped<S>(grains: Seq<Grain<S>>) -> Seq<Grain<S>> {
    grains.map_values(|g: Grain<S>| g.step())
}

/// What one read of each grain of the pool yields: the reads of the live
/// grains, in their order.
pub open spec fn readings<S>(grains: Seq<Grain<S>>, buffer: Seq<StereoFrame<S>>) -> Seq<
    GrainRead<S>,
> {
    grains.filter_map(|g: Grain<S>| g.reading(buffer))
}

/// A pool without a live grain has no live grains to keep.
pub proof fn lemma_nothing_live<S>(grains: Seq<Grain<S>>)
    requires
        all_finished(grains),
    ensures
        live(grains).len() == 0,
    decreases grains.len(),
{
    reveal(Seq::filter);
    if grains.len() > 0 {
        assert(grains.last().finished);
        lemma_nothing_live(grains.drop_last());
    }
}

/// Every grain that is kept as live is live.
pub proof fn lemma_live_is_live<S>(grains: Seq<Grain<S>>)
    ensures
        forall|i: int| 0 <= i < live(grains).len() ==> !(#[trigger] live(grains)[i]).finished,
{
    assert forall|i: int| 0 <= i < live(grains).len() implies !(#[trigger] live(
        grains,
    )[i]).finished by {
        grains.lemma_filter_pred(|g: Grain<S>| !g.finished, i);
    }
}

/// Drops the finished grains of a pool and keeps the live ones in their
/// order.
pub fn retain_live<S: Copy>(grains: &mut Vec<Grain<S>>)
    ensures
        final(grains)@ == live(old(grains)@),
{
    let mut kept: Vec<Grain<S>> = Vec::new();
    let mut i: usize = 0;
    while i < grains.len()
        invariant
            i <= grains@.len(),
            grains@ == old(grains)@,
            kept@ == live(grains@.take(i as int)),
        decreases grains@.len() - i,
    {
        let grain = grains[i];
        proof {
            reveal(Seq::filter);
            assert(grains@.take(i + 1).drop_last() =~= grains@.take(i as int));
        }
        if !grain.finished {
            kept.push(grain);
        }
        i += 1;
    }
    proof {
        assert(grains@.take(i as int) =~= grains@);
    }
    *grains = kept;
}

/// Reads every grain of a pool once and hands out what the live ones
/// yield, in their order.
pub fn read_all<S: Copy>(grains: &mut Vec<Grain<S>>, buffer: &[StereoFrame<S>]) -> (reads: Vec<
    GrainRead<S>,
>)
    requires
        buffer@.len() > 0,
    ensures
        final(grains)@ == stepped(old(grains)@),
        reads@ == readings(old(grains)@, buffer@),
{
    let mut reads: Vec<GrainRead<S>> = Vec::new();
    let mut i: usize = 0;
    while i < grains.len()
        invariant
            i <= grains@.len(),
            grains@.len() == old(grains)@.len(),
            buffer@.len() > 0,
            grains@ =~= stepped(old(grains)@.take(i as int)) + old(grains)@.skip(i as int),
            reads@ == readings(old(grains)@.take(i as int), buffer@),
        decreases grains@.len() - i,
    {
        let mut grain = grains[i];
        let read = grain.read(buffer);
        grains.set(i, grain);
        if let Some(read) = read {
            reads.push(read);
        }
        proof {
            old(grains)@.lemma_filter_map_take_succ(|g: Grain<S>| g.reading(buffer@), i as int);
            assert(grains@ =~= stepped(old(grains)@.take(i + 1)) + old(grains)@.skip(i + 1));
        }
        i += 1;
    }
    proof {
        assert(old(grains)@.take(i as int) =~= old(grains)@);
    }
    reads
}

} // verus!
