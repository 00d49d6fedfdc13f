use vstd::prelude::*;
use rand::seq::IndexedRandom;

verus! {

/// A set of trigger points, as the geometry that produces them sends it:
/// positions `(x, y)`, and the largest `y` among them.
#[derive(Debug)]
pub struct PointSet<S> {
    pub points: Vec<(S, S)>,
    pub max_height: S,
}

/// A request for one grain: the point that was picked, and the largest
/// height of the set it was picked from.
#[derive(Debug)]
pub struct Trigger<S> {
    pub x: S,
    pub y: S,
    pub max_height: S,
}

impl<S: Copy> Clone for Trigger<S> {
    fn clone(&self) -> (copy: Self)
        ensures
            copy == *self,
    {
        *self
    }
}

impl<S: Copy> Copy for Trigger<S> {

}

/// The state of a sequencer as mathematics.
pub struct SequencerView<S> {
    pub points: Seq<(S, S)>,
    pub max_height: S,
    /// The number of frames from one trigger to the next.
    pub period: nat,
    /// The number of frames until the next trigger.
    pub timer: nat,
    /// The triggers that nobody has fetched yet, oldest first.
    pub events: Seq<Trigger<S>>,
}

impl<S> SequencerView<S> {
    /// A new point set replaces the old one.
    pub open spec fn update_points(self, set: Option<PointSet<S>>) -> Self {
        match set {
            Some(set) => SequencerView { points: set.points@, max_height: set.max_height, ..self },
            None => self,
        }
    }

    /// Whether `choice` can come out of picking a point: nothing from an
    /// empty set, one of the points from any other.
    pub open spec fn may_pick(self, choice: Option<(S, S)>) -> bool {
        match choice {
            Some(point) => self.points.contains(point),
            None => self.points.len() == 0,
        }
    }

    /// The picked point joins the queue; where nothing was picked the queue
    /// stays as it is.
    pub open spec fn queue(self, choice: Option<(S, S)>) -> Self {
        match choice {
            Some(point) => SequencerView {
                events: self.events.push(
                    Trigger { x: point.0, y: point.1, max_height: self.max_height },
                ),
                ..self
            },
            None => self,
        }
    }

    /// Whether `choice` can come out of one frame of the countdown, which
    /// picks a point only when the timer has run out.
    pub open spec fn may_tick(self, choice: Option<(S, S)>) -> bool {
        self.timer == 0 ==> self.may_pick(choice)
    }

    /// One frame of the countdown: a timer that has run out queues `choice`
    /// and starts again from the period, and then the timer counts one
    /// frame down, as far as there is anything left to count.
    pub open spec fn tick(self, choice: Option<(S, S)>) -> Self {
        let fired = if self.timer == 0 {
            SequencerView { timer: self.period, ..self.queue(choice) }
        } else {
            self
        };
        SequencerView {
            timer: if fired.timer > 0 {
                (fired.timer - 1) as nat
            } else {
                0
            },
            ..fired
        }
    }

    /// One frame: the new point set, if there is one, then the countdown.
    pub open spec fn update(self, set: Option<PointSet<S>>, choice: Option<(S, S)>) -> Self {
        self.update_points(set).tick(choice)
    }

    /// The countdown run for one frame per entry of `choices`, in their
    /// order.
    pub open spec fn ticks(self, choices: Seq<Option<(S, S)>>) -> Self
        decreases choices.len(),
    {
        if choices.len() == 0 {
            self
        } else {
            self.ticks(choices.drop_last()).tick(choices.last())
        }
    }

    /// The sequencer with its queue emptied.
    pub open spec fn drained(self) -> Self {
        SequencerView { events: Seq::empty(), ..self }
    }
}

/// While the timer has frames left to count, the countdown queues nothing,
/// whatever it is offered, and takes one frame off the timer per frame.
pub proof fn lemma_quiet_until_due<S>(seq: SequencerView<S>, choices: Seq<Option<(S, S)>>)
    requires
        choices.len() <= seq.timer,
    ensures
        seq.ticks(choices) == (SequencerView {
            timer: (seq.timer - choices.len()) as nat,
            ..seq
        }),
    decreases choices.len(),
{
    if choices.len() > 0 {
        lemma_quiet_until_due(seq, choices.drop_last());
    }
}

/// Triggers are one period apart: after a frame in which the timer ran out,
/// the frames up to the period queue nothing, and the timer runs out again
/// for the frame that is one period later.
pub proof fn lemma_trigger_spacing<S>(
    seq: SequencerView<S>,
    choice: Option<(S, S)>,
    choices: Seq<Option<(S, S)>>,
)
    requires
        seq.timer == 0,
        seq.period >= 1,
        choices.len() == seq.period - 1,
    ensures
        seq.tick(choice).ticks(choices) == (SequencerView { timer: 0, ..seq.queue(choice) }),
{
    lemma_quiet_until_due(seq.tick(choice), choices);
}

/// Picks a point with `rand::seq::IndexedRandom::choose`, drawing from the
/// generator of the calling thread, `rand::rng()`. The call gives nothing
/// for an empty set and a reference to one of the set's points for any
/// other; which one is left open here.
#[verifier::external_body]
fn choose_point<S: Copy>(points: &Vec<(S, S)>) -> (choice: Option<(S, S)>)
    ensures
        points@.len() == 0 ==> choice is None,
        points@.len() > 0 ==> choice is Some && points@.contains(choice->0),
{
    points.choose(&mut rand::rng()).copied()
}

/// Turns a set of points into requests for grains at a steady rate.
#[derive(Debug)]
pub struct Sequencer<S> {
    points: Vec<(S, S)>,
    max_height: S,
    period: usize,
    timer: usize,
    grain_events: Vec<Trigger<S>>,
}

impl<S: Copy> View for Sequencer<S> {
    type V = SequencerView<S>;

    closed spec fn view(&self) -> SequencerView<S> {
        SequencerView {
            points: self.points@,
            max_height: self.max_height,
            period: self.period as nat,
            timer: self.timer as nat,
            events: self.grain_events@,
        }
    }
}

impl<S: Copy> Sequencer<S> {
    /// A sequencer that triggers on its first frame and then every `period`
    /// frames.
    pub fn new(points: Vec<(S, S)>, max_height: S, period: usize) -> (seq: Self)
        ensures
            seq@ == (SequencerView {
                points: points@,
                max_height,
                period: period as nat,
                timer: 0,
                events: Seq::empty(),
            }),
    {
        Sequencer { points, max_height, period, timer: 0, grain_events: Vec::new() }
    }

    /// The number of frames from one trigger to the next.
    pub fn period(&self) -> (period: usize)
        ensures
            period == self@.period,
    {
        self.period
    }

    /// Sets the number of frames from one trigger to the next. The
    /// countdown that is under way runs out first.
    pub fn set_period(&mut self, period: usize)
        ensures
            final(self)@ == (SequencerView { period: period as nat, ..old(self)@ }),
    {
        self.period = period;
    }

    /// Hands out the triggers queued since the last call, oldest first, and
    /// empties the queue.
    pub fn get_events(&mut self) -> (events: Vec<Trigger<S>>)
        ensures
            events@ == old(self)@.events,
            final(self)@ == old(self)@.drained(),
    {
        let mut events: Vec<Trigger<S>> = Vec::new();
        std::mem::swap(&mut events, &mut self.grain_events);
        events
    }

    /// Takes in a new point set, if one has arrived.
    pub fn update_points(&mut self, set: Option<PointSet<S>>)
        ensures
            final(self)@ == old(self)@.update_points(set),
    {
        if let Some(set) = set {
            self.max_height = set.max_height;
            self.points = set.points;
        }
    }

    /// Queues a trigger for the point that was picked, if one was.
    pub fn queue(&mut self, choice: Option<(S, S)>)
        ensures
            final(self)@ == old(self)@.queue(choice),
    {
        if let Some(point) = choice {
            self.grain_events.push(Trigger { x: point.0, y: point.1, max_height: self.max_height });
        }
    }

    /// Picks one of the points at random and queues a trigger for it. With
    /// no points to pick from, nothing happens.
    pub fn trigger(&mut self)
        ensures
            exists|choice: Option<(S, S)>|
                old(self)@.may_pick(choice) && final(self)@ == #[trigger] old(self)@.queue(choice),
            old(self)@.points.len() == 0 ==> final(self)@ == old(self)@,
    {
        let choice = choose_point(&self.points);
        self.queue(choice);
        assert(old(self)@.may_pick(choice) && self@ == old(self)@.queue(choice));
    }

    /// Picks the point for the next frame of the countdown: one of the
    /// points at random if the timer has run out and there is any, and
    /// nothing otherwise.
    pub fn pick(&self) -> (choice: Option<(S, S)>)
        ensures
            self@.may_tick(choice),
            self@.timer > 0 ==> choice is None,
    {
        if self.timer == 0 {
            choose_point(&self.points)
        } else {
            None
        }
    }

    /// Runs the countdown for one frame, with `choice` as the point to
    /// queue if the timer has run out.
    pub fn tick(&mut self, choice: Option<(S, S)>)
        ensures
            final(self)@ == old(self)@.tick(choice),
    {
        if self.timer == 0 {
            self.queue(choice);
            self.timer = self.period;
        }
        if self.timer > 0 {
            self.timer = self.timer - 1;
        }
    }

    /// One frame: takes in the new point set, if there is one, and runs the
    /// countdown, picking a point at random when the timer has run out.
    pub fn update(&mut self, set: Option<PointSet<S>>)
        ensures
            exists|choice: Option<(S, S)>|
                old(self)@.update_points(set).may_tick(choice) && final(self)@
                    == #[trigger] old(self)@.update(set, choice),
    {
        self.update_points(set);
        let choice = self.pick();
        self.tick(choice);
        assert(old(self)@.update_points(set).may_tick(choice) && self@ == old(self)@.update(
            set,
            choice,
        ));
    }
}

} // verus!
