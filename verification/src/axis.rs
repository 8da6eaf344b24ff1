//! One axis of motion: what it has accumulated, the dead zone, and the
//! direction it signals.

use vstd::prelude::*;
use crate::keys::{change_direction, change_events, disengage_events, Axis, Direction, KeyEvent};

verus! {

/// How far accumulated motion must go beyond zero before an axis leaves the
/// neutral direction, and how much of it every such step uses up.
pub const SENSITIVITY: i32 = 10;

/// Accumulated motion too small, either way, to signal a direction.
pub open spec fn in_dead_zone(accumulator: int) -> bool {
    -SENSITIVITY <= accumulator <= SENSITIVITY
}

/// The direction that accumulated motion calls for.
pub open spec fn target_direction(accumulator: int) -> Direction {
    if accumulator > SENSITIVITY {
        Direction::Positive
    } else if accumulator < -SENSITIVITY {
        Direction::Negative
    } else {
        Direction::Neutral
    }
}

/// What is left of accumulated motion once its direction has been signalled:
/// outside the dead zone one threshold's worth is given back, towards zero;
/// inside it nothing changes.
pub open spec fn decayed(accumulator: int) -> int {
    if accumulator > SENSITIVITY {
        accumulator - SENSITIVITY
    } else if accumulator < -SENSITIVITY {
        accumulator + SENSITIVITY
    } else {
        accumulator
    }
}

/// The mathematical content of an [`AxisState`].
pub struct AxisModel {
    pub axis: Axis,
    pub current: Direction,
    pub accumulator: int,
}

impl AxisModel {
    /// An axis at rest: neutral, with nothing accumulated.
    pub open spec fn initial(axis: Axis) -> AxisModel {
        AxisModel { axis, current: Direction::Neutral, accumulator: 0 }
    }

    /// What holds of an axis between two ticks: the direction signalled
    /// agrees with the sign of what is left in the accumulator, and a neutral
    /// axis lies in the dead zone.
    pub open spec fn settled(self) -> bool {
        match self.current {
            Direction::Neutral => in_dead_zone(self.accumulator),
            Direction::Negative => self.accumulator < 0,
            Direction::Positive => self.accumulator > 0,
        }
    }

    /// The axis after `delta` more units of motion, before it is evaluated.
    pub open spec fn moved(self, delta: int) -> AxisModel {
        AxisModel { accumulator: self.accumulator + delta, ..self }
    }

    /// The axis with its accumulator emptied, before it is evaluated.
    pub open spec fn released(self) -> AxisModel {
        AxisModel { accumulator: 0, ..self }
    }

    /// The axis after evaluation: it signals the direction that its
    /// accumulator calls for, and the accumulator has decayed. An accumulator
    /// in the dead zone calls for the neutral direction, whatever was
    /// signalled before.
    pub open spec fn updated(self) -> AxisModel {
        AxisModel {
            axis: self.axis,
            current: target_direction(self.accumulator),
            accumulator: decayed(self.accumulator),
        }
    }

    /// The key events of that evaluation.
    pub open spec fn update_events(self) -> Seq<KeyEvent> {
        change_events(self.axis, self.current, target_direction(self.accumulator))
    }

    /// One tick with the drag held: `delta` is accumulated, then the axis is
    /// evaluated.
    pub open spec fn dragged(self, delta: int) -> AxisModel {
        self.moved(delta).updated()
    }

    /// The key events of that tick.
    pub open spec fn drag_events(self, delta: int) -> Seq<KeyEvent> {
        self.moved(delta).update_events()
    }

    /// One tick with the drag released: the accumulator is emptied, then the
    /// axis is evaluated.
    pub open spec fn let_go(self) -> AxisModel {
        self.released().updated()
    }

    /// The key events of that tick.
    pub open spec fn let_go_events(self) -> Seq<KeyEvent> {
        self.released().update_events()
    }

    /// The axis reflected about zero.
    pub open spec fn mirrored(self) -> AxisModel {
        AxisModel {
            axis: self.axis,
            current: self.current.opposite(),
            accumulator: -self.accumulator,
        }
    }

    /// The axis after a run of ticks with the drag held, one delta per tick.
    pub open spec fn dragged_through(self, deltas: Seq<int>) -> AxisModel
        decreases deltas.len(),
    {
        if deltas.len() == 0 {
            self
        } else {
            self.dragged_through(deltas.drop_last()).dragged(deltas.last())
        }
    }

    /// The key events of that run, in order.
    pub open spec fn events_through(self, deltas: Seq<int>) -> Seq<KeyEvent>
        decreases deltas.len(),
    {
        if deltas.len() == 0 {
            Seq::empty()
        } else {
            self.events_through(deltas.drop_last()) + self.dragged_through(
                deltas.drop_last(),
            ).drag_events(deltas.last())
        }
    }
}

/// The sum of a run of deltas.
pub open spec fn sum(deltas: Seq<int>) -> int
    decreases deltas.len(),
{
    if deltas.len() == 0 {
        0
    } else {
        sum(deltas.drop_last()) + deltas.last()
    }
}

/// The state of one axis: the direction it signals and the motion it has
/// accumulated and not yet used up.
///
/// A value is only ever made neutral and empty, and changed by a tick, so
/// between ticks it is always settled.
#[derive(Clone, Copy, Debug, PartialEq, Eq)]
pub struct AxisState {
    axis: Axis,
    current: Direction,
    accumulator: i32,
}

impl View for AxisState {
    type V = AxisModel;

    closed spec fn view(&self) -> AxisModel {
        AxisModel {
            axis: self.axis,
            current: self.current,
            accumulator: self.accumulator as int,
        }
    }
}

impl AxisState {
    #[verifier::type_invariant]
    spec fn is_settled(self) -> bool {
        self@.settled()
    }

    /// An axis at rest.
    pub fn new(axis: Axis) -> (state: AxisState)
        ensures
            state@ == AxisModel::initial(axis),
    {
        AxisState { axis, current: Direction::Neutral, accumulator: 0 }
    }

    /// Which axis this is.
    pub fn axis(&self) -> (axis: Axis)
        ensures
            axis == self@.axis,
    {
        self.axis
    }

    /// The direction signalled at present.
    pub fn current(&self) -> (direction: Direction)
        ensures
            direction == self@.current,
            self@.settled(),
    {
        proof {
            use_type_invariant(self);
        }
        self.current
    }

    /// The motion accumulated and not yet used up.
    pub fn accumulator(&self) -> (accumulator: i32)
        ensures
            accumulator == self@.accumulator,
            self@.settled(),
    {
        proof {
            use_type_invariant(self);
        }
        self.accumulator
    }

    /// Evaluates an axis that signals `current` and holds `accumulator`:
    /// picks the direction that the accumulator calls for, lets the
    /// accumulator decay, and lists the key events of the change.
    fn evaluate(axis: Axis, current: Direction, accumulator: i32) -> (out: (
        AxisState,
        Vec<KeyEvent>,
    ))
        ensures
            out.0@ == (AxisModel { axis, current, accumulator: accumulator as int }).updated(),
            out.1@ == (AxisModel { axis, current, accumulator: accumulator as int }).update_events(),
    {
        let target: Direction;
        let rest: i32;
        if accumulator > SENSITIVITY {
            target = Direction::Positive;
            rest = accumulator - SENSITIVITY;
        } else if accumulator < -SENSITIVITY {
            target = Direction::Negative;
            rest = accumulator + SENSITIVITY;
        } else {
            target = Direction::Neutral;
            rest = accumulator;
        }
        let events = change_direction(axis, current, target);
        (AxisState { axis, current: target, accumulator: rest }, events)
    }

    /// One tick with the drag held: accumulates `delta`, evaluates the axis,
    /// and returns the key events to deliver, in order. A tick on which the
    /// pointer did not move is a drag by zero.
    ///
    /// The accumulator is an `i32`: the sum has to fit.
    #[must_use]
    pub fn drag(&mut self, delta: i32) -> (events: Vec<KeyEvent>)
        requires
            i32::MIN <= old(self)@.accumulator + delta <= i32::MAX,
        ensures
            final(self)@ == old(self)@.dragged(delta as int),
            events@ == old(self)@.drag_events(delta as int),
    {
        let (next, events) = Self::evaluate(self.axis, self.current, self.accumulator + delta);
        *self = next;
        events
    }

    /// One tick with the drag released: empties the accumulator, evaluates
    /// the axis, and returns the key events to deliver, in order.
    #[must_use]
    pub fn release(&mut self) -> (events: Vec<KeyEvent>)
        ensures
            final(self)@ == old(self)@.let_go(),
            events@ == old(self)@.let_go_events(),
    {
        let (next, events) = Self::evaluate(self.axis, self.current, 0);
        *self = next;
        events
    }
}

/// Hysteresis: as long as the running sum of the deltas stays within the
/// dead zone (strictly inside it in particular), an axis that starts at rest
/// never leaves the neutral direction, keeps the whole sum in its
/// accumulator, and no key event is produced.
pub proof fn lemma_hysteresis(axis: Axis, deltas: Seq<int>)
    requires
        forall|n: int| 0 <= n <= deltas.len() ==> in_dead_zone(sum(#[trigger] deltas.take(n))),
    ensures
        forall|n: int|
            0 <= n <= deltas.len() ==> {
                let state = AxisModel::initial(axis).dragged_through(#[trigger] deltas.take(n));
                &&& state.current == Direction::Neutral
                &&& state.accumulator == sum(deltas.take(n))
            },
        AxisModel::initial(axis).events_through(deltas) == Seq::<KeyEvent>::empty(),
    decreases deltas.len(),
{
    let start = AxisModel::initial(axis);
    assert(deltas.take(deltas.len() as int) =~= deltas);
    if deltas.len() > 0 {
        let front = deltas.drop_last();
        assert forall|n: int| 0 <= n <= front.len() implies #[trigger] front.take(n)
            == deltas.take(n) by {
            assert(front.take(n) =~= deltas.take(n));
        }
        lemma_hysteresis(axis, front);
        assert(front.take(front.len() as int) =~= front);
        assert forall|n: int| 0 <= n <= deltas.len() implies {
            let state = start.dragged_through(#[trigger] deltas.take(n));
            &&& state.current == Direction::Neutral
            &&& state.accumulator == sum(deltas.take(n))
        } by {
            if n < deltas.len() {
                assert(front.take(n) == deltas.take(n));
            }
        }
    }
}

/// Decay: a tick that takes the accumulator to a value `v` above the
/// threshold signals the positive direction and leaves `v - SENSITIVITY`,
/// not zero. Where that remainder is itself above the threshold, a following
/// tick without motion keeps the direction and produces no key event; where
/// it is not, the axis has used up its motion and that tick releases the key.
pub proof fn lemma_decay(state: AxisModel, delta: int)
    requires
        state.accumulator + delta > SENSITIVITY,
    ensures
        state.dragged(delta).current == Direction::Positive,
        state.dragged(delta).accumulator == state.accumulator + delta - SENSITIVITY,
        state.accumulator + delta - SENSITIVITY > SENSITIVITY ==> {
            &&& state.dragged(delta).dragged(0).current == Direction::Positive
            &&& state.dragged(delta).drag_events(0) == Seq::<KeyEvent>::empty()
        },
        state.accumulator + delta - SENSITIVITY <= SENSITIVITY ==> {
            &&& state.dragged(delta).dragged(0).current == Direction::Neutral
            &&& state.dragged(delta).drag_events(0) == disengage_events(
                state.axis,
                Direction::Positive,
            )
        },
{
}

/// Idempotence: an evaluation whose target is the direction already
/// signalled produces no key event, and no evaluation produces more than one
/// release and one press. Within the dead zone, where evaluating leaves the
/// accumulator as it is, evaluating again changes nothing and produces
/// nothing.
pub proof fn lemma_update_is_idempotent(state: AxisModel)
    ensures
        state.update_events().len() <= 2,
        target_direction(state.accumulator) == state.current ==> state.update_events()
            == Seq::<KeyEvent>::empty(),
        in_dead_zone(state.accumulator) ==> {
            &&& state.updated().updated() == state.updated()
            &&& state.updated().update_events() == Seq::<KeyEvent>::empty()
        },
        state.moved(0) == state,
{
}

/// No re-injection: a tick without motion on a settled axis never presses a
/// key. The axis keeps its direction, or has used up its motion and turns
/// neutral with the one release that this takes.
pub proof fn lemma_idle_tick_never_presses(state: AxisModel)
    requires
        state.settled(),
    ensures
        state.dragged(0).current == state.current || state.dragged(0).current
            == Direction::Neutral,
        state.dragged(0).current == state.current ==> state.drag_events(0) == Seq::<
            KeyEvent,
        >::empty(),
        state.dragged(0).current != state.current ==> state.drag_events(0) == disengage_events(
            state.axis,
            state.current,
        ),
        forall|i: int|
            0 <= i < state.drag_events(0).len() ==> !(#[trigger] state.drag_events(0)[i]).is_press,
{
}

/// Symmetry: the negative side mirrors the positive side. Reflecting the
/// state and the motion about zero reflects the outcome: the opposite
/// direction, the negated accumulator, and the same sequence of releases and
/// presses on the keys of the opposite directions.
pub proof fn lemma_symmetry(state: AxisModel, delta: int)
    ensures
        target_direction(-state.accumulator) == target_direction(state.accumulator).opposite(),
        decayed(-state.accumulator) == -decayed(state.accumulator),
        state.mirrored().dragged(-delta) == state.dragged(delta).mirrored(),
        state.mirrored().drag_events(-delta) == change_events(
            state.axis,
            state.current.opposite(),
            state.dragged(delta).current.opposite(),
        ),
        state.mirrored().drag_events(-delta).len() == state.drag_events(delta).len(),
        forall|i: int|
            0 <= i < state.drag_events(delta).len() ==> (#[trigger] state.mirrored().drag_events(
                -delta,
            )[i]).is_press == state.drag_events(delta)[i].is_press,
{
}

/// Every evaluation leaves the axis settled, and it never takes the
/// accumulator further from zero or across it.
pub proof fn lemma_updated_is_settled(state: AxisModel)
    ensures
        state.updated().settled(),
        state.accumulator >= 0 ==> 0 <= state.updated().accumulator <= state.accumulator,
        state.accumulator <= 0 ==> state.accumulator <= state.updated().accumulator <= 0,
{
}

} // verus!
