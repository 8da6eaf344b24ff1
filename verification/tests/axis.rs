use drag_keys::axis::{AxisState, SENSITIVITY};
use drag_keys::keys::{Axis, Direction, KeyEvent, KEY_DOWN, KEY_LEFT, KEY_RIGHT, KEY_UP};

fn press(key_code: u8) -> KeyEvent {
    KeyEvent { key_code, is_press: true }
}

fn release(key_code: u8) -> KeyEvent {
    KeyEvent { key_code, is_press: false }
}

#[test]
fn sensitivity_is_ten() {
    assert_eq!(SENSITIVITY, 10);
}

#[test]
fn new_axis_is_at_rest() {
    let axis = AxisState::new(Axis::Vertical);
    assert_eq!(axis.axis(), Axis::Vertical);
    assert_eq!(axis.current(), Direction::Neutral);
    assert_eq!(axis.accumulator(), 0);
}

#[test]
fn engage_fires_once_past_the_threshold() {
    let mut axis = AxisState::new(Axis::Horizontal);

    assert_eq!(axis.drag(5), vec![]);
    assert_eq!(axis.accumulator(), 5);
    assert_eq!(axis.current(), Direction::Neutral);

    assert_eq!(axis.drag(4), vec![]);
    assert_eq!(axis.accumulator(), 9);
    assert_eq!(axis.current(), Direction::Neutral);

    assert_eq!(axis.drag(3), vec![press(KEY_RIGHT)]);
    assert_eq!(axis.current(), Direction::Positive);
    assert_eq!(axis.accumulator(), 2);
}

#[test]
fn sustained_motion_decays_without_reinjection() {
    let mut axis = AxisState::new(Axis::Horizontal);
    let _ = axis.drag(5);
    let _ = axis.drag(4);
    let _ = axis.drag(3);

    assert_eq!(axis.drag(15), vec![]);
    assert_eq!(axis.current(), Direction::Positive);
    assert_eq!(axis.accumulator(), 7);
}

#[test]
fn release_mid_positive_disengages_once() {
    let mut axis = AxisState::new(Axis::Horizontal);
    let _ = axis.drag(5);
    let _ = axis.drag(4);
    let _ = axis.drag(3);
    assert_eq!(axis.current(), Direction::Positive);

    assert_eq!(axis.release(), vec![release(KEY_RIGHT)]);
    assert_eq!(axis.accumulator(), 0);
    assert_eq!(axis.current(), Direction::Neutral);
}

#[test]
fn running_sum_inside_the_dead_zone_never_leaves_neutral() {
    let deltas: [i32; 8] = [9, -18, 9, 9, -5, 5, -10, -8];
    let mut axis = AxisState::new(Axis::Horizontal);
    let mut sum = 0;
    for delta in deltas {
        sum += delta;
        assert!(-SENSITIVITY < sum && sum < SENSITIVITY);
        assert_eq!(axis.drag(delta), vec![]);
        assert_eq!(axis.current(), Direction::Neutral);
        assert_eq!(axis.accumulator(), sum);
    }
}

#[test]
fn dead_zone_includes_its_bounds() {
    let mut up = AxisState::new(Axis::Horizontal);
    assert_eq!(up.drag(10), vec![]);
    assert_eq!(up.current(), Direction::Neutral);
    assert_eq!(up.accumulator(), 10);
    assert_eq!(up.drag(1), vec![press(KEY_RIGHT)]);
    assert_eq!(up.current(), Direction::Positive);
    assert_eq!(up.accumulator(), 1);

    let mut down = AxisState::new(Axis::Horizontal);
    assert_eq!(down.drag(-10), vec![]);
    assert_eq!(down.current(), Direction::Neutral);
    assert_eq!(down.accumulator(), -10);
    assert_eq!(down.drag(-1), vec![press(KEY_LEFT)]);
    assert_eq!(down.current(), Direction::Negative);
    assert_eq!(down.accumulator(), -1);
}

#[test]
fn decay_keeps_the_remainder() {
    let mut axis = AxisState::new(Axis::Horizontal);
    assert_eq!(axis.drag(35), vec![press(KEY_RIGHT)]);
    assert_eq!(axis.accumulator(), 25);

    assert_eq!(axis.drag(0), vec![]);
    assert_eq!(axis.current(), Direction::Positive);
    assert_eq!(axis.accumulator(), 15);

    assert_eq!(axis.drag(0), vec![]);
    assert_eq!(axis.current(), Direction::Positive);
    assert_eq!(axis.accumulator(), 5);
}

#[test]
fn idle_tick_releases_once_the_motion_is_used_up() {
    let mut axis = AxisState::new(Axis::Horizontal);
    assert_eq!(axis.drag(12), vec![press(KEY_RIGHT)]);
    assert_eq!(axis.accumulator(), 2);

    assert_eq!(axis.drag(0), vec![release(KEY_RIGHT)]);
    assert_eq!(axis.current(), Direction::Neutral);
    assert_eq!(axis.accumulator(), 2);
}

#[test]
fn repeated_idle_ticks_emit_nothing_more() {
    let mut axis = AxisState::new(Axis::Vertical);
    assert_eq!(axis.drag(-14), vec![press(KEY_UP)]);
    assert_eq!(axis.drag(0), vec![release(KEY_UP)]);
    let settled = axis;
    for _ in 0..5 {
        assert_eq!(axis.drag(0), vec![]);
        assert_eq!(axis, settled);
    }
    assert_eq!(axis.current(), Direction::Neutral);
    assert_eq!(axis.accumulator(), -4);
}

#[test]
fn negative_side_mirrors_positive_side() {
    let deltas: [i32; 7] = [5, 4, 3, 15, 0, -40, 40];
    let mut right = AxisState::new(Axis::Horizontal);
    let mut left = AxisState::new(Axis::Horizontal);
    for delta in deltas {
        let there = right.drag(delta);
        let back = left.drag(-delta);
        assert_eq!(left.accumulator(), -right.accumulator());
        assert_eq!(left.current(), right.current().opposite());
        assert_eq!(there.len(), back.len());
        for (a, b) in there.iter().zip(back.iter()) {
            assert_eq!(a.is_press, b.is_press);
            let mirrored = if a.key_code == KEY_RIGHT { KEY_LEFT } else { KEY_RIGHT };
            assert_eq!(b.key_code, mirrored);
        }
    }
}

#[test]
fn negative_threshold_crossing_adds_the_threshold_back() {
    let mut axis = AxisState::new(Axis::Vertical);
    assert_eq!(axis.drag(-12), vec![press(KEY_UP)]);
    assert_eq!(axis.current(), Direction::Negative);
    assert_eq!(axis.accumulator(), -2);

    assert_eq!(axis.release(), vec![release(KEY_UP)]);
    assert_eq!(axis.accumulator(), 0);
}

#[test]
fn reversal_releases_before_it_presses() {
    let mut axis = AxisState::new(Axis::Horizontal);
    assert_eq!(axis.drag(15), vec![press(KEY_RIGHT)]);
    assert_eq!(axis.accumulator(), 5);

    assert_eq!(axis.drag(-40), vec![release(KEY_RIGHT), press(KEY_LEFT)]);
    assert_eq!(axis.current(), Direction::Negative);
    assert_eq!(axis.accumulator(), -25);

    let mut other = AxisState::new(Axis::Vertical);
    let _ = other.drag(-11);
    assert_eq!(other.drag(30), vec![release(KEY_UP), press(KEY_DOWN)]);
    assert_eq!(other.current(), Direction::Positive);
    assert_eq!(other.accumulator(), 19);
}

#[test]
fn release_of_a_neutral_axis_emits_nothing() {
    let mut axis = AxisState::new(Axis::Horizontal);
    let _ = axis.drag(7);
    assert_eq!(axis.release(), vec![]);
    assert_eq!(axis.current(), Direction::Neutral);
    assert_eq!(axis.accumulator(), 0);
}
