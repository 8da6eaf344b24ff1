//! Both axes of one pointer, driven tick by tick from pointer samples.

use vstd::prelude::*;
use crate::axis::{AxisModel, AxisState};
use crate::keys::{disengage_events, Axis, Direction, KeyEvent};
use crate::sample::PointerSample;

verus! {

/// Whether an accumulator can be what is left of the motion that brought the
/// pointer to `position`: the pointer never was further away than the
/// coordinate range is wide, and an axis only ever gives motion back.
pub open spec fn within_reach(accumulator: int, position: int) -> bool {
    position - i16::MAX <= accumulator <= position - i16::MIN
}

/// The mathematical content of a [`MouseHandle`].
pub struct MouseModel {
    pub x: AxisModel,
    pub y: AxisModel,
    pub last_x: int,
    pub last_y: int,
}

impl MouseModel {
    /// Both axes at rest, with the pointer at the given position.
    pub open spec fn initial(x: int, y: int) -> MouseModel {
        MouseModel {
            x: AxisModel::initial(Axis::Horizontal),
            y: AxisModel::initial(Axis::Vertical),
            last_x: x,
            last_y: y,
        }
    }

    /// What holds of a handle between two ticks.
    pub open spec fn wf(self) -> bool {
        &&& self.x.axis == Axis::Horizontal
        &&& self.y.axis == Axis::Vertical
        &&& self.x.settled()
        &&& self.y.settled()
        &&& i16::MIN <= self.last_x <= i16::MAX
        &&& i16::MIN <= self.last_y <= i16::MAX
        &&& within_reach(self.x.accumulator, self.last_x)
        &&& within_reach(self.y.accumulator, self.last_y)
    }

    /// The handle after one tick.
    ///
    /// Without a sample both axes are evaluated on what they hold. A sample
    /// with the drag held adds the distance from the last position to each
    /// axis; one with the drag released empties both accumulators. Either
    /// way both axes are then evaluated, and the sample's position becomes
    /// the last position.
    pub open spec fn ticked(self, sample: Option<PointerSample>) -> MouseModel {
        match sample {
            None => MouseModel { x: self.x.dragged(0), y: self.y.dragged(0), ..self },
            Some(s) => if s.drag_engaged {
                MouseModel {
                    x: self.x.dragged(s.absolute_x - self.last_x),
                    y: self.y.dragged(s.absolute_y - self.last_y),
                    last_x: s.absolute_x as int,
                    last_y: s.absolute_y as int,
                }
            } else {
                MouseModel {
                    x: self.x.let_go(),
                    y: self.y.let_go(),
                    last_x: s.absolute_x as int,
                    last_y: s.absolute_y as int,
                }
            },
        }
    }

    /// The key events of that tick in the order of delivery: those of the
    /// horizontal axis, then those of the vertical axis.
    pub open spec fn tick_events(self, sample: Option<PointerSample>) -> Seq<KeyEvent> {
        match sample {
            None => self.x.drag_events(0) + self.y.drag_events(0),
            Some(s) => if s.drag_engaged {
                self.x.drag_events(s.absolute_x - self.last_x) + self.y.drag_events(
                    s.absolute_y - self.last_y,
                )
            } else {
                self.x.let_go_events() + self.y.let_go_events()
            },
        }
    }
}

/// The two axes of a pointer and the position it was last seen at.
#[derive(Clone, Copy, Debug, PartialEq, Eq)]
pub struct MouseHandle {
    x: AxisState,
    y: AxisState,
    last_x: i16,
    last_y: i16,
}

impl View for MouseHandle {
    type V = MouseModel;

    closed spec fn view(&self) -> MouseModel {
        MouseModel {
            x: self.x@,
            y: self.y@,
            last_x: self.last_x as int,
            last_y: self.last_y as int,
        }
    }
}

impl MouseHandle {
    #[verifier::type_invariant]
    spec fn is_wf(self) -> bool {
        self@.wf()
    }

    /// A handle with both axes at rest, for a pointer at the given position.
    pub fn new(x: i16, y: i16) -> (handle: MouseHandle)
        ensures
            handle@ == MouseModel::initial(x as int, y as int),
    {
        MouseHandle {
            x: AxisState::new(Axis::Horizontal),
            y: AxisState::new(Axis::Vertical),
            last_x: x,
            last_y: y,
        }
    }

    /// The horizontal axis.
    pub fn horizontal(&self) -> (axis: AxisState)
        ensures
            axis@ == self@.x,
            self@.wf(),
    {
        proof {
            use_type_invariant(self);
        }
        self.x
    }

    /// The vertical axis.
    pub fn vertical(&self) -> (axis: AxisState)
        ensures
            axis@ == self@.y,
            self@.wf(),
    {
        proof {
            use_type_invariant(self);
        }
        self.y
    }

    /// The position the pointer was last seen at.
    pub fn last_location(&self) -> (location: (i16, i16))
        ensures
            location.0 == self@.last_x,
            location.1 == self@.last_y,
    {
        (self.last_x, self.last_y)
    }

    /// One tick of the drive loop. `sample` is the pointer sample that
    /// arrived since the last tick, if one did. Returns the key events to
    /// deliver, in order.
    #[must_use]
    pub fn tick(&mut self, sample: Option<PointerSample>) -> (events: Vec<KeyEvent>)
        ensures
            final(self)@ == old(self)@.ticked(sample),
            events@ == old(self)@.tick_events(sample),
    {
        proof {
            use_type_invariant(&*self);
        }
        let mut x: AxisState = self.x;
        let mut y: AxisState = self.y;
        let mut last_x: i16 = self.last_x;
        let mut last_y: i16 = self.last_y;
        let mut events: Vec<KeyEvent>;
        let mut more: Vec<KeyEvent>;
        match sample {
            None => {
                events = x.drag(0);
                more = y.drag(0);
            },
            Some(s) => {
                if s.drag_engaged {
                    events = x.drag(s.absolute_x as i32 - last_x as i32);
                    more = y.drag(s.absolute_y as i32 - last_y as i32);
                } else {
                    events = x.release();
                    more = y.release();
                }
                last_x = s.absolute_x;
                last_y = s.absolute_y;
            },
        }
        events.append(&mut more);
        *self = MouseHandle { x, y, last_x, last_y };
        events
    }
}

/// A tick keeps a handle well formed. In particular the accumulators stay
/// within 65535 of zero, whatever the samples: no run of samples makes them
/// overflow.
pub proof fn lemma_tick_preserves_wf(handle: MouseModel, sample: Option<PointerSample>)
    requires
        handle.wf(),
    ensures
        handle.ticked(sample).wf(),
        -65535 <= handle.x.accumulator <= 65535,
        -65535 <= handle.y.accumulator <= 65535,
{
}

/// Drag release: a tick whose sample has the drag released empties both
/// accumulators and makes both axes neutral, and its key events are the
/// releases of the keys that were held, with no press among them.
pub proof fn lemma_release_resets(handle: MouseModel, sample: PointerSample)
    requires
        !sample.drag_engaged,
    ensures
        handle.ticked(Some(sample)).x.accumulator == 0,
        handle.ticked(Some(sample)).y.accumulator == 0,
        handle.ticked(Some(sample)).x.current == Direction::Neutral,
        handle.ticked(Some(sample)).y.current == Direction::Neutral,
        handle.tick_events(Some(sample)) == disengage_events(handle.x.axis, handle.x.current)
            + disengage_events(handle.y.axis, handle.y.current),
        forall|i: int|
            0 <= i < handle.tick_events(Some(sample)).len() ==> !(#[trigger] handle.tick_events(
                Some(sample),
            )[i]).is_press,
{
}

} // verus!
