use vstd::prelude::*;
use crate::dsp::StereoFrame;
use crate::saturation::{Saturater, SaturaterView, SaturationMode};
use vstd::arithmetic::div_mod::{
    lemma_add_mod_noop, lemma_fundamental_div_mod, lemma_mod_bound, lemma_mod_multiples_vanish,
    lemma_small_mod, lemma_sub_mod_noop,
};

verus! {

/// What a delay line hands out for one frame: the two stored samples next to
/// the read position, and whether the position lies on the first of them or
/// halfway between the two.
#[derive(Debug)]
pub struct Tap<S> {
    pub first: S,
    pub second: S,
    pub halfway: bool,
}

impl<S: Copy> Clone for Tap<S> {
    fn clone(&self) -> (copy: Self)
        ensures
            copy == *self,
    {
        *self
    }
}

impl<S: Copy> Copy for Tap<S> {

}

/// The state of a delay line as mathematics. Delay times count half samples,
/// the step by which a line glides towards a new time.
pub struct DelayLineView<S> {
    pub samples: Seq<S>,
    pub write_ptr: nat,
    pub time: nat,
    pub target: nat,
}

impl<S> DelayLineView<S> {
    /// The buffer is not empty and the write cursor lies inside it.
    pub open spec fn wf(self) -> bool {
        &&& self.samples.len() > 0
        &&& self.write_ptr < self.samples.len()
    }

    /// The delay is a whole number of samples and does not glide.
    pub open spec fn settled(self) -> bool {
        &&& self.time == self.target
        &&& self.time % 2 == 0
    }

    /// The slot at or just before the read position, which trails the write
    /// cursor by the delay time and wraps around the buffer.
    pub open spec fn read_index(self) -> int {
        (self.write_ptr - (self.time + 1) / 2) % (self.samples.len() as int)
    }

    /// The slot after `read_index`, wrapping around the buffer.
    pub open spec fn next_index(self) -> int {
        (self.read_index() + 1) % (self.samples.len() as int)
    }

    /// What a read hands out: the samples in those two slots, and whether
    /// the delay ends on half a sample.
    pub open spec fn tap(self) -> Tap<S> {
        Tap {
            first: self.samples[self.read_index()],
            second: self.samples[self.next_index()],
            halfway: self.time % 2 == 1,
        }
    }

    /// The line with `sample` in the slot under the write cursor.
    pub open spec fn write(self, sample: S) -> Self {
        DelayLineView { samples: self.samples.update(self.write_ptr as int, sample), ..self }
    }

    /// One frame later: the delay has moved half a sample towards its target
    /// and the write cursor one slot on.
    pub open spec fn advance(self) -> Self {
        DelayLineView {
            time: if self.time > self.target {
                (self.time - 1) as nat
            } else if self.time < self.target {
                self.time + 1
            } else {
                self.time
            },
            write_ptr: (self.write_ptr + 1) % self.samples.len(),
            ..self
        }
    }

    /// The line `frames` frames later, with nothing written meanwhile.
    pub open spec fn advance_n(self, frames: nat) -> Self
        decreases frames,
    {
        if frames == 0 {
            self
        } else {
            self.advance().advance_n((frames - 1) as nat)
        }
    }

    /// The line after one frame per entry of `inputs`, each of which wrote
    /// its entry and moved on.
    pub open spec fn play(self, inputs: Seq<S>) -> Self
        decreases inputs.len(),
    {
        if inputs.len() == 0 {
            self
        } else {
            self.play(inputs.drop_last()).write(inputs.last()).advance()
        }
    }

    /// A line of `buf_size` slots that all hold `silence`, with a settled
    /// delay of `time` samples.
    pub open spec fn silent(time: nat, buf_size: nat, silence: S) -> Self {
        DelayLineView {
            samples: Seq::new(buf_size, |i: int| silence),
            write_ptr: 0,
            time: 2 * time,
            target: 2 * time,
        }
    }

    /// The line with a delay of `time` samples, reached at once.
    pub open spec fn set_time(self, time: nat) -> Self {
        DelayLineView { time: 2 * time, target: 2 * time, ..self }
    }

    /// The line on its way to a delay of `time` samples.
    pub open spec fn set_time_smooth(self, time: nat) -> Self {
        DelayLineView { target: 2 * time, ..self }
    }
}

/// `x` leaves the remainder `r` when `x` is `r` plus a multiple of `n`.
proof fn lemma_remainder(x: int, q: int, r: int, n: int)
    requires
        n > 0,
        0 <= r < n,
        x == n * q + r,
    ensures
        x % n == r,
{
    lemma_mod_multiples_vanish(q, r, n);
    lemma_small_mod(r as nat, n as nat);
}

/// Advancing a line keeps its buffer and its target, moves the write cursor
/// one slot per frame around the buffer, and moves the delay by half a sample
/// per frame towards the target, where it stays.
pub proof fn lemma_advance_n<S>(line: DelayLineView<S>, frames: nat)
    requires
        line.wf(),
    ensures
        line.advance_n(frames).wf(),
        line.advance_n(frames).samples == line.samples,
        line.advance_n(frames).target == line.target,
        line.advance_n(frames).write_ptr == (line.write_ptr + frames) % line.samples.len(),
        line.time <= line.target ==> line.advance_n(frames).time == if line.time + frames
            <= line.target {
            line.time + frames
        } else {
            line.target
        },
        line.time >= line.target ==> line.advance_n(frames).time == if line.time - frames
            >= line.target {
            line.time - frames
        } else {
            line.target as int
        },
    decreases frames,
{
    let n = line.samples.len() as int;
    if frames == 0 {
        lemma_small_mod(line.write_ptr, n as nat);
    } else {
        let next = line.advance();
        lemma_mod_bound(line.write_ptr as int + 1, n);
        lemma_advance_n(next, (frames - 1) as nat);
        lemma_add_mod_noop(line.write_ptr as int + 1, frames - 1, n);
        lemma_small_mod((frames - 1) as nat % n as nat, n as nat);
        lemma_add_mod_noop(next.write_ptr as int, frames - 1, n);
        lemma_small_mod(next.write_ptr, n as nat);
    }
}

/// A sample written into a line whose delay is settled is read back, on the
/// read position itself, after exactly as many frames as the delay is long,
/// and again whenever the cursor has gone round the buffer once more. On
/// every other frame the read position shows what the buffer held before the
/// write, as long as nothing else is written.
pub proof fn lemma_round_trip<S>(line: DelayLineView<S>, sample: S, frames: nat)
    requires
        line.wf(),
        line.settled(),
    ensures
        ({
            let later = line.write(sample).advance_n(frames);
            let turns = (frames - line.time / 2) % (line.samples.len() as int);
            &&& !later.tap().halfway
            &&& 0 <= later.read_index() < line.samples.len()
            &&& turns == 0 ==> later.tap().first == sample
            &&& turns != 0 ==> later.tap().first == line.samples[later.read_index()]
        }),
{
    let n = line.samples.len() as int;
    let w = line.write_ptr as int;
    let delay = (line.time / 2) as int;
    let written = line.write(sample);
    let later = written.advance_n(frames);
    lemma_advance_n(written, frames);
    assert((later.time + 1) / 2 == delay);
    let turns = (frames - delay) % n;
    lemma_mod_bound(frames - delay, n);
    lemma_mod_bound(later.write_ptr - delay, n);
    assert(later.read_index() == (w + turns) % n) by {
        lemma_sub_mod_noop(w + frames, delay, n);
        lemma_sub_mod_noop(later.write_ptr as int, delay, n);
        lemma_small_mod(later.write_ptr, n as nat);
        lemma_add_mod_noop(w, frames - delay, n);
        lemma_small_mod(w as nat, n as nat);
        assert((w + frames) - delay == w + (frames - delay));
    }
    if w + turns < n {
        lemma_small_mod((w + turns) as nat, n as nat);
    } else {
        lemma_remainder(w + turns, 1, w + turns - n, n);
    }
}

/// Two numbers that are less than `n` apart leave different remainders.
proof fn lemma_distinct_remainders(a: int, b: int, n: int)
    requires
        0 < a - b < n,
    ensures
        a % n != b % n,
{
    lemma_fundamental_div_mod(a, n);
    lemma_fundamental_div_mod(b, n);
    let turns = a / n - b / n;
    if a % n == b % n {
        assert(a - b == n * turns) by (nonlinear_arith)
            requires
                a == n * (a / n) + (a % n),
                b == n * (b / n) + (b % n),
                a % n == b % n,
                turns == a / n - b / n,
        ;
        assert(false) by (nonlinear_arith)
            requires
                0 < n * turns < n,
        ;
    }
}

/// A settled line that is played keeps its delay, moves its write cursor
/// one slot per frame around the buffer, and holds the latest inputs, as
/// many as it has slots, in the slots they were written to.
proof fn lemma_play<S>(line: DelayLineView<S>, inputs: Seq<S>)
    requires
        line.wf(),
        line.settled(),
    ensures
        line.play(inputs).wf(),
        line.play(inputs).settled(),
        line.play(inputs).time == line.time,
        line.play(inputs).samples.len() == line.samples.len(),
        line.play(inputs).write_ptr == (line.write_ptr + inputs.len()) % line.samples.len(),
        forall|j: int|
            0 <= j < inputs.len() && inputs.len() - j <= line.samples.len() ==> line.play(
                inputs,
            ).samples[(line.write_ptr + j) % (line.samples.len() as int)] == #[trigger] inputs[j],
    decreases inputs.len(),
{
    let n = line.samples.len() as int;
    let w = line.write_ptr as int;
    let k = inputs.len() as int;
    if k == 0 {
        lemma_small_mod(line.write_ptr, n as nat);
    } else {
        let before = line.play(inputs.drop_last());
        lemma_play(line, inputs.drop_last());
        lemma_mod_bound(w + k - 1, n);
        lemma_mod_bound(before.write_ptr as int + 1, n);
        lemma_add_mod_noop(w + k - 1, 1, n);
        lemma_small_mod(1nat % n as nat, n as nat);
        lemma_add_mod_noop(before.write_ptr as int, 1, n);
        lemma_small_mod(before.write_ptr, n as nat);
        let after = line.play(inputs);
        assert forall|j: int| 0 <= j < k && k - j <= n implies after.samples[(w + j) % n]
            == #[trigger] inputs[j] by {
            lemma_mod_bound(w + j, n);
            if j < k - 1 {
                lemma_distinct_remainders(w + k - 1, w + j, n);
                assert(inputs.drop_last()[j] == inputs[j]);
            }
        }
    }
}

/// A settled line is a delay: once it has been played for as many frames
/// as its delay is long, it reads back, on the read position itself, the
/// input of that many frames ago. The delay is at least one sample and at
/// most as long as the buffer.
pub proof fn lemma_delay<S>(line: DelayLineView<S>, inputs: Seq<S>)
    requires
        line.wf(),
        line.settled(),
        1 <= line.time / 2 <= line.samples.len(),
        inputs.len() >= line.time / 2,
    ensures
        !line.play(inputs).tap().halfway,
        line.play(inputs).tap().first == inputs[inputs.len() - line.time / 2],
{
    let n = line.samples.len() as int;
    let w = line.write_ptr as int;
    let k = inputs.len() as int;
    let delay = (line.time / 2) as int;
    let played = line.play(inputs);
    lemma_play(line, inputs);
    assert((played.time + 1) / 2 == delay);
    assert(played.read_index() == (w + (k - delay)) % n) by {
        lemma_sub_mod_noop(w + k, delay, n);
        lemma_sub_mod_noop(played.write_ptr as int, delay, n);
        lemma_small_mod(played.write_ptr, n as nat);
        lemma_mod_bound(w + k, n);
        assert((w + k) - delay == w + (k - delay));
    }
    assert(inputs[k - delay] == played.samples[(w + (k - delay)) % n]);
}

/// A line that is longer than its delay never reads the slot that is about
/// to be written: with a delay of at least one sample, the read position
/// lies behind the write cursor, and with one of at least two, so does the
/// slot after it.
pub proof fn lemma_read_trails_write<S>(line: DelayLineView<S>)
    requires
        line.wf(),
        1 <= (line.time + 1) / 2 < line.samples.len(),
    ensures
        line.read_index() != line.write_ptr,
        (line.time + 1) / 2 >= 2 ==> line.next_index() != line.write_ptr,
{
    let n = line.samples.len() as int;
    let w = line.write_ptr as int;
    let behind = ((line.time + 1) / 2) as int;
    if w >= behind {
        lemma_remainder(w - behind, 0, w - behind, n);
    } else {
        lemma_remainder(w - behind, -1, w - behind + n, n);
    }
    let index = line.read_index();
    if index + 1 < n {
        lemma_remainder(index + 1, 0, index + 1, n);
    } else {
        lemma_remainder(index + 1, 1, 0, n);
    }
}

/// A single-channel circular buffer that is read a delay time behind its
/// write cursor. The delay may fall halfway between two samples while it
/// glides from one time to another.
#[derive(Debug)]
pub struct DelayLine<S> {
    samples: Vec<S>,
    write_ptr: usize,
    whole: usize,
    half: bool,
    target: usize,
}

impl<S: Copy> View for DelayLine<S> {
    type V = DelayLineView<S>;

    closed spec fn view(&self) -> DelayLineView<S> {
        DelayLineView {
            samples: self.samples@,
            write_ptr: self.write_ptr as nat,
            time: (2 * self.whole + if self.half { 1int } else { 0int }) as nat,
            target: 2 * (self.target as nat),
        }
    }
}

impl<S: Copy> DelayLine<S> {
    /// A line of `buf_size` slots, each holding `silence`, with a delay of
    /// `time` samples.
    pub fn new(time: usize, buf_size: usize, silence: S) -> (line: Self)
        requires
            buf_size > 0,
        ensures
            line@ == DelayLineView::silent(time as nat, buf_size as nat, silence),
            line@.wf(),
    {
        let mut samples: Vec<S> = Vec::new();
        while samples.len() < buf_size
            invariant
                samples@.len() <= buf_size,
                samples@ =~= Seq::new(samples@.len(), |i: int| silence),
            decreases buf_size - samples@.len(),
        {
            samples.push(silence);
        }
        DelayLine { samples, write_ptr: 0, whole: time, half: false, target: time }
    }

    /// The number of slots in the buffer.
    pub fn buf_size(&self) -> (n: usize)
        ensures
            n == self@.samples.len(),
    {
        self.samples.len()
    }

    /// Starts a glide: the delay moves towards `time` samples by half a
    /// sample per frame.
    pub fn set_time_smooth(&mut self, time: usize)
        ensures
            final(self)@ == old(self)@.set_time_smooth(time as nat),
    {
        self.target = time;
    }

    /// Jumps to a delay of `time` samples at once.
    pub fn set_time(&mut self, time: usize)
        ensures
            final(self)@ == old(self)@.set_time(time as nat),
    {
        self.whole = time;
        self.half = false;
        self.target = time;
    }

    /// Stores `sample` in the slot under the write cursor.
    pub fn write(&mut self, sample: S)
        requires
            old(self)@.wf(),
        ensures
            final(self)@ == old(self)@.write(sample),
            final(self)@.wf(),
    {
        let at = self.write_ptr;
        self.samples.set(at, sample);
    }

    /// The samples around the read position.
    pub fn read(&self) -> (tap: Tap<S>)
        requires
            self@.wf(),
        ensures
            tap == self@.tap(),
    {
        let n = self.samples.len();
        let back = self.whole % n;
        let at = if self.write_ptr >= back {
            self.write_ptr - back
        } else {
            n - (back - self.write_ptr)
        };
        let index = if !self.half {
            at
        } else if at == 0 {
            n - 1
        } else {
            at - 1
        };
        let next = if index + 1 == n {
            0
        } else {
            index + 1
        };
        proof {
            let n = n as int;
            let whole = self.whole as int;
            let laps = whole / n;
            lemma_fundamental_div_mod(whole, n);
            let behind = (self@.time + 1) / 2;
            assert(behind == whole + if self.half { 1int } else { 0int });
            let wrapped: int = if index as int + behind - self.write_ptr > n * laps {
                -(laps + 1)
            } else {
                -laps
            };
            assert(n * (laps + 1) == n * laps + n) by (nonlinear_arith);
            assert(n * (-laps) == -(n * laps)) by (nonlinear_arith);
            assert(n * (-(laps + 1)) == -(n * laps) - n) by (nonlinear_arith);
            lemma_remainder(self.write_ptr - behind, wrapped, index as int, n);
            if index + 1 == n {
                lemma_remainder(index + 1, 1, 0, n);
            } else {
                lemma_remainder(index + 1, 0, index + 1, n);
            }
        }
        Tap { first: self.samples[index], second: self.samples[next], halfway: self.half }
    }

    /// Ends a frame: moves the delay half a sample towards its target, if it
    /// is not there yet, and the write cursor to the next slot.
    pub fn advance(&mut self)
        requires
            old(self)@.wf(),
        ensures
            final(self)@ == old(self)@.advance(),
            final(self)@.wf(),
    {
        if self.whole > self.target || (self.whole == self.target && self.half) {
            if self.half {
                self.half = false;
            } else {
                self.whole = self.whole - 1;
                self.half = true;
            }
        } else if self.whole < self.target {
            if self.half {
                self.whole = self.whole + 1;
                self.half = false;
            } else {
                self.half = true;
            }
        }
        let n = self.samples.len();
        let next = if self.write_ptr + 1 == n {
            0
        } else {
            self.write_ptr + 1
        };
        proof {
            if self.write_ptr + 1 == n {
                lemma_remainder(self.write_ptr + 1, 1, 0, n as int);
            } else {
                lemma_remainder(self.write_ptr + 1, 0, self.write_ptr + 1, n as int);
            }
        }
        self.write_ptr = next;
    }
}

/// The number of slots in each line of a stereo delay: six seconds at 44000
/// frames per second.
pub const DELAY_BUF_SIZE: usize = 264000;

/// The settings of a stereo delay. The delay times count samples.
#[derive(Debug)]
pub struct DelayParams<S> {
    pub feedback: S,
    pub mix: S,
    pub time_l: usize,
    pub time_r: usize,
    pub bypass: bool,
    pub pitch: bool,
}

impl<S: Copy> Clone for DelayParams<S> {
    fn clone(&self) -> (copy: Self)
        ensures
            copy == *self,
    {
        *self
    }
}

impl<S: Copy> Copy for DelayParams<S> {

}

/// The settings of what shapes the signal inside the feedback loop.
#[derive(Debug)]
pub struct FeedbackParams<S> {
    pub drive: S,
    pub saturate: bool,
    pub mode: SaturationMode,
}

impl<S: Copy> Clone for FeedbackParams<S> {
    fn clone(&self) -> (copy: Self)
        ensures
            copy == *self,
    {
        *self
    }
}

impl<S: Copy> Copy for FeedbackParams<S> {

}

impl<S: Copy> FeedbackParams<S> {
    /// The settings a delay starts with: the tape mode at the given drive,
    /// with saturation switched off.
    pub fn with_drive(drive: S) -> (params: Self)
        ensures
            params == (FeedbackParams { drive, saturate: false, mode: SaturationMode::Tape }),
    {
        FeedbackParams { drive, saturate: false, mode: SaturationMode::Tape }
    }
}

/// The state of a stereo delay as mathematics.
pub struct StereoDelayView<S> {
    pub left: DelayLineView<S>,
    pub right: DelayLineView<S>,
    pub sat_left: SaturaterView<S>,
    pub sat_right: SaturaterView<S>,
    pub params: DelayParams<S>,
    pub feedback: FeedbackParams<S>,
}

impl<S> StereoDelayView<S> {
    /// Both lines are well formed, and both saturaters are in the mode that
    /// the feedback settings name.
    pub open spec fn wf(self) -> bool {
        &&& self.left.wf()
        &&& self.right.wf()
        &&& self.sat_left.mode == self.feedback.mode
        &&& self.sat_right.mode == self.feedback.mode
    }

    /// New delay settings replace the old ones. Both lines take their new
    /// delay time, as a glide where `pitch` is set and at once where it is
    /// not.
    pub open spec fn set_params(self, params: DelayParams<S>) -> Self {
        StereoDelayView {
            left: if params.pitch {
                self.left.set_time_smooth(params.time_l as nat)
            } else {
                self.left.set_time(params.time_l as nat)
            },
            right: if params.pitch {
                self.right.set_time_smooth(params.time_r as nat)
            } else {
                self.right.set_time(params.time_r as nat)
            },
            params,
            ..self
        }
    }

    /// New feedback settings replace the old ones, and both saturaters take
    /// the mode they name.
    pub open spec fn set_feedback(self, feedback: FeedbackParams<S>) -> Self {
        StereoDelayView {
            sat_left: self.sat_left.set_mode(feedback.mode),
            sat_right: self.sat_right.set_mode(feedback.mode),
            feedback,
            ..self
        }
    }

    /// The state after the messages that arrived for one frame, the delay
    /// settings first.
    pub open spec fn update_params(
        self,
        params: Option<DelayParams<S>>,
        feedback: Option<FeedbackParams<S>>,
    ) -> Self {
        let timed = match params {
            Some(p) => self.set_params(p),
            None => self,
        };
        match feedback {
            Some(f) => timed.set_feedback(f),
            None => timed,
        }
    }

    /// What the lines hand out for this frame; nothing while the delay is
    /// bypassed.
    pub open spec fn taps(self) -> Option<(Tap<S>, Tap<S>)> {
        if self.params.bypass {
            None
        } else {
            Some((self.left.tap(), self.right.tap()))
        }
    }

    /// Whether the saturaters shape what the lines hand out.
    pub open spec fn saturates(self) -> bool {
        !self.params.bypass && self.feedback.saturate
    }

    /// The state after a frame in which `shaped` came out of the two
    /// saturaters and `frame` went into the lines. The lines store the frame
    /// and move on, and the saturaters take note of what they shaped, if
    /// saturation is switched on. A bypassed delay stays as it is.
    pub open spec fn feed(self, shaped: StereoFrame<S>, frame: StereoFrame<S>) -> Self {
        if self.params.bypass {
            self
        } else {
            StereoDelayView {
                left: self.left.write(frame.0).advance(),
                right: self.right.write(frame.1).advance(),
                sat_left: if self.feedback.saturate {
                    self.sat_left.remember(shaped.0)
                } else {
                    self.sat_left
                },
                sat_right: if self.feedback.saturate {
                    self.sat_right.remember(shaped.1)
                } else {
                    self.sat_right
                },
                ..self
            }
        }
    }
}

/// A bypassed delay hands out no taps, so that a frame passes it unchanged,
/// and feeding it changes nothing in it.
pub proof fn lemma_bypass_is_identity<S>(
    delay: StereoDelayView<S>,
    shaped: StereoFrame<S>,
    frame: StereoFrame<S>,
)
    requires
        delay.params.bypass,
    ensures
        delay.taps() is None,
        delay.feed(shaped, frame) == delay,
{
}

/// Two delay lines with a saturater each in their feedback paths. The delay
/// decides what is read and stored on each frame; the arithmetic between the
/// read and the write is its caller's.
#[derive(Debug)]
pub struct StereoDelay<S> {
    dl_left: DelayLine<S>,
    dl_right: DelayLine<S>,
    sat_l: Saturater<S>,
    sat_r: Saturater<S>,
    params: DelayParams<S>,
    feedback_params: FeedbackParams<S>,
}

impl<S: Copy> View for StereoDelay<S> {
    type V = StereoDelayView<S>;

    closed spec fn view(&self) -> StereoDelayView<S> {
        StereoDelayView {
            left: self.dl_left@,
            right: self.dl_right@,
            sat_left: self.sat_l@,
            sat_right: self.sat_r@,
            params: self.params,
            feedback: self.feedback_params,
        }
    }
}

impl<S: Copy> StereoDelay<S> {
    /// A bypassed delay with silent lines of `DELAY_BUF_SIZE` slots, delay
    /// times of `time_l` and `time_r` samples, and its saturaters and
    /// feedback settings in tape mode at the given drive.
    pub fn new(time_l: usize, time_r: usize, feedback: S, mix: S, drive: S, silence: S) -> (delay:
        Self)
        ensures
            delay@.wf(),
            delay@.left == DelayLineView::silent(time_l as nat, DELAY_BUF_SIZE as nat, silence),
            delay@.right == DelayLineView::silent(time_r as nat, DELAY_BUF_SIZE as nat, silence),
            delay@.sat_left == (SaturaterView { drive, prev: silence, mode: SaturationMode::Tape }),
            delay@.sat_right == delay@.sat_left,
            delay@.params == (DelayParams {
                feedback,
                mix,
                time_l,
                time_r,
                bypass: true,
                pitch: false,
            }),
            delay@.feedback == (FeedbackParams {
                drive,
                saturate: false,
                mode: SaturationMode::Tape,
            }),
    {
        StereoDelay {
            dl_left: DelayLine::new(time_l, DELAY_BUF_SIZE, silence),
            dl_right: DelayLine::new(time_r, DELAY_BUF_SIZE, silence),
            sat_l: Saturater::new(drive, silence, SaturationMode::Tape),
            sat_r: Saturater::new(drive, silence, SaturationMode::Tape),
            params: DelayParams { feedback, mix, time_l, time_r, bypass: true, pitch: false },
            feedback_params: FeedbackParams::with_drive(drive),
        }
    }

    /// The delay settings in force.
    pub fn params(&self) -> (params: DelayParams<S>)
        ensures
            params == self@.params,
    {
        self.params
    }

    /// The feedback settings in force.
    pub fn feedback_params(&self) -> (params: FeedbackParams<S>)
        ensures
            params == self@.feedback,
    {
        self.feedback_params
    }

    /// The saturaters of the left and the right channel.
    pub fn saturaters(&self) -> (pair: (&Saturater<S>, &Saturater<S>))
        ensures
            pair.0@ == self@.sat_left,
            pair.1@ == self@.sat_right,
    {
        (&self.sat_l, &self.sat_r)
    }

    /// Takes in the messages that arrived since the last frame, at most one
    /// of each kind.
    pub fn update_params(
        &mut self,
        params: Option<DelayParams<S>>,
        feedback: Option<FeedbackParams<S>>,
    )
        requires
            old(self)@.wf(),
        ensures
            final(self)@ == old(self)@.update_params(params, feedback),
            final(self)@.wf(),
    {
        if let Some(params) = params {
            self.params = params;
            if params.pitch {
                self.dl_left.set_time_smooth(params.time_l);
                self.dl_right.set_time_smooth(params.time_r);
            } else {
                self.dl_left.set_time(params.time_l);
                self.dl_right.set_time(params.time_r);
            }
        }
        if let Some(feedback) = feedback {
            if self.feedback_params.mode != feedback.mode {
                self.sat_l.set_mode(&feedback.mode);
                self.sat_r.set_mode(&feedback.mode);
            }
            self.feedback_params = feedback;
        }
    }

    /// Reads both lines, unless the delay is bypassed.
    pub fn taps(&self) -> (taps: Option<(Tap<S>, Tap<S>)>)
        requires
            self@.wf(),
        ensures
            taps == self@.taps(),
    {
        if self.params.bypass {
            None
        } else {
            Some((self.dl_left.read(), self.dl_right.read()))
        }
    }

    /// Whether the saturaters are to shape what `taps` hands out.
    pub fn saturates(&self) -> (on: bool)
        ensures
            on == self@.saturates(),
    {
        !self.params.bypass && self.feedback_params.saturate
    }

    /// Ends a frame that `taps` began. `shaped` is what came out of the
    /// saturaters, and counts only where `saturates` holds; `frame` is what
    /// the lines are to store.
    pub fn feed(&mut self, shaped: StereoFrame<S>, frame: StereoFrame<S>)
        requires
            old(self)@.wf(),
        ensures
            final(self)@ == old(self)@.feed(shaped, frame),
            final(self)@.wf(),
    {
        if !self.params.bypass {
            if self.feedback_params.saturate {
                self.sat_l.remember(shaped.0);
                self.sat_r.remember(shaped.1);
            }
            self.dl_left.write(frame.0);
            self.dl_right.write(frame.1);
            self.dl_left.advance();
            self.dl_right.advance();
        }
    }
}

} // verus!
