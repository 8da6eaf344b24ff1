//! Directions, the keys bound to them, and the key events that realise a
//! change of direction.

use vstd::prelude::*;

verus! {

/// One of the two independent dimensions of pointer motion.
#[derive(Clone, Copy, Debug, PartialEq, Eq, Structural)]
pub enum Axis {
    /// Left and right.
    Horizontal,
    /// Up and down.
    Vertical,
}

/// What an axis signals at a given moment.
///
/// On the horizontal axis `Negative` is left and `Positive` is right; on the
/// vertical axis `Negative` is up and `Positive` is down.
#[derive(Clone, Copy, Debug, PartialEq, Eq, Structural)]
pub enum Direction {
    Neutral,
    Negative,
    Positive,
}

/// A synthetic key event for the caller to deliver.
#[derive(Clone, Copy, Debug, PartialEq, Eq, Structural)]
pub struct KeyEvent {
    /// The code of the key.
    pub key_code: u8,
    /// `true` for a press, `false` for a release.
    pub is_press: bool,
}

/// Key code of the up arrow.
pub const KEY_UP: u8 = 111;

/// Key code of the left arrow.
pub const KEY_LEFT: u8 = 113;

/// Key code of the right arrow.
pub const KEY_RIGHT: u8 = 114;

/// Key code of the down arrow.
pub const KEY_DOWN: u8 = 116;

impl Direction {
    /// The same direction seen from the other side: neutral stays neutral.
    pub open spec fn opposite_spec(self) -> Direction {
        match self {
            Direction::Neutral => Direction::Neutral,
            Direction::Negative => Direction::Positive,
            Direction::Positive => Direction::Negative,
        }
    }

    /// Swaps `Negative` and `Positive`.
    #[verifier::when_used_as_spec(opposite_spec)]
    pub fn opposite(self) -> (d: Direction)
        ensures
            d == self.opposite_spec(),
    {
        match self {
            Direction::Neutral => Direction::Neutral,
            Direction::Negative => Direction::Positive,
            Direction::Positive => Direction::Negative,
        }
    }
}

/// The key bound to a direction of an axis; the neutral direction has none.
pub open spec fn key_of(axis: Axis, direction: Direction) -> Option<u8> {
    match (axis, direction) {
        (_, Direction::Neutral) => None,
        (Axis::Horizontal, Direction::Negative) => Some(KEY_LEFT),
        (Axis::Horizontal, Direction::Positive) => Some(KEY_RIGHT),
        (Axis::Vertical, Direction::Negative) => Some(KEY_UP),
        (Axis::Vertical, Direction::Positive) => Some(KEY_DOWN),
    }
}

/// Looks up the key bound to a direction of an axis.
pub fn key_code(axis: Axis, direction: Direction) -> (code: Option<u8>)
    ensures
        code == key_of(axis, direction),
{
    match direction {
        Direction::Neutral => None,
        Direction::Negative => match axis {
            Axis::Horizontal => Some(KEY_LEFT),
            Axis::Vertical => Some(KEY_UP),
        },
        Direction::Positive => match axis {
            Axis::Horizontal => Some(KEY_RIGHT),
            Axis::Vertical => Some(KEY_DOWN),
        },
    }
}

/// The events that give up a direction: the release of its key, or nothing
/// for the neutral direction.
pub open spec fn disengage_events(axis: Axis, direction: Direction) -> Seq<KeyEvent> {
    match key_of(axis, direction) {
        Some(code) => seq![(KeyEvent { key_code: code, is_press: false })],
        None => Seq::empty(),
    }
}

/// The events that take up a direction: the press of its key, or nothing for
/// the neutral direction.
pub open spec fn engage_events(axis: Axis, direction: Direction) -> Seq<KeyEvent> {
    match key_of(axis, direction) {
        Some(code) => seq![(KeyEvent { key_code: code, is_press: true })],
        None => Seq::empty(),
    }
}

/// The events that take an axis from one direction to another, in the order
/// of delivery: nothing where the direction stays, else what gives up the old
/// direction followed by what takes up the new one.
pub open spec fn change_events(axis: Axis, from: Direction, to: Direction) -> Seq<KeyEvent> {
    if from == to {
        Seq::empty()
    } else {
        disengage_events(axis, from) + engage_events(axis, to)
    }
}

/// Computes the key events that take `axis` from the direction `from` to the
/// direction `to`, in the order in which they are to be delivered.
#[must_use]
pub fn change_direction(axis: Axis, from: Direction, to: Direction) -> (events: Vec<KeyEvent>)
    ensures
        events@ == change_events(axis, from, to),
{
    let mut events: Vec<KeyEvent> = Vec::new();
    if from == to {
        return events;
    }
    match key_code(axis, from) {
        Some(code) => {
            events.push(KeyEvent { key_code: code, is_press: false });
        },
        None => {},
    }
    match key_code(axis, to) {
        Some(code) => {
            events.push(KeyEvent { key_code: code, is_press: true });
        },
        None => {},
    }
    events
}

/// The four direction keys are pairwise distinct, so a key event names its
/// axis and direction.
pub proof fn lemma_keys_distinct(a1: Axis, d1: Direction, a2: Axis, d2: Direction)
    requires
        d1 != Direction::Neutral,
        key_of(a1, d1) == key_of(a2, d2),
    ensures
        a1 == a2,
        d1 == d2,
{
}

/// A change of direction never takes more than one release and one press,
/// and a change to the direction already held takes nothing at all.
pub proof fn lemma_change_is_minimal(axis: Axis, from: Direction, to: Direction)
    ensures
        change_events(axis, from, to).len() <= 2,
        change_events(axis, to, to).len() == 0,
        change_events(axis, from, to).len() == 0 <==> from == to,
{
}

/// Between two opposite directions the release of the old key comes strictly
/// before the press of the new one; to and from neutral there is one event.
pub proof fn lemma_release_precedes_press(axis: Axis, from: Direction, to: Direction)
    requires
        from != to,
    ensures
        from != Direction::Neutral && to != Direction::Neutral ==> {
            &&& change_events(axis, from, to).len() == 2
            &&& change_events(axis, from, to)[0] == (KeyEvent {
                key_code: key_of(axis, from)->Some_0,
                is_press: false,
            })
            &&& change_events(axis, from, to)[1] == (KeyEvent {
                key_code: key_of(axis, to)->Some_0,
                is_press: true,
            })
        },
        from == Direction::Neutral ==> change_events(axis, from, to) == engage_events(axis, to)
            && engage_events(axis, to).len() == 1,
        to == Direction::Neutral ==> change_events(axis, from, to) == disengage_events(axis, from)
            && disengage_events(axis, from).len() == 1,
{
}

} // verus!
