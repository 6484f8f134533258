//! The axis-frame accumulator: per-field merge semantics of the builder.

use pointer_input::{Axis, AxisFrame, AxisSource};

// One scroll unit, as a fixed-point scale for continuous deltas: 5.0 in
// floating terms is 5 * UNIT.
const UNIT: i64 = 120;

fn fixed(v: f64) -> i64 {
    (v * UNIT as f64) as i64
}

#[test]
fn new_frame_is_empty() {
    let frame = AxisFrame::new(1234);
    assert_eq!(frame.time, 1234);
    assert_eq!(frame.source, None);
    assert_eq!(frame.axis, (0, 0));
    assert_eq!(frame.discrete, None);
    assert_eq!(frame.stop, (false, false));
}

#[test]
fn value_accumulates_within_frame() {
    let frame = AxisFrame::new(0).value(Axis::Horizontal, fixed(5.0)).value(
        Axis::Horizontal,
        fixed(2.5),
    );
    assert_eq!(frame.axis.0, fixed(7.5));
    assert_eq!(frame.axis.1, 0);
}

#[test]
fn discrete_overwrites_within_frame() {
    let frame = AxisFrame::new(0).discrete(Axis::Vertical, 3).discrete(Axis::Vertical, 7);
    assert_eq!(frame.discrete, Some((0, 7)));
}

#[test]
fn axes_are_independent() {
    let frame = AxisFrame::new(0)
        .value(Axis::Horizontal, 30)
        .value(Axis::Vertical, -12)
        .discrete(Axis::Horizontal, 2)
        .stop(Axis::Vertical);
    assert_eq!(frame.axis, (30, -12));
    assert_eq!(frame.discrete, Some((2, 0)));
    assert_eq!(frame.stop, (false, true));
}

#[test]
fn stop_is_sticky() {
    let frame = AxisFrame::new(0).stop(Axis::Horizontal).value(Axis::Horizontal, 10).stop(
        Axis::Horizontal,
    );
    assert_eq!(frame.stop, (true, false));
    assert_eq!(frame.axis.0, 10);
}

#[test]
fn source_is_recorded() {
    let frame = AxisFrame::new(0).source(AxisSource::Finger);
    assert_eq!(frame.source, Some(AxisSource::Finger));
    let frame = AxisFrame::new(0).source(AxisSource::Wheel);
    assert_eq!(frame.source, Some(AxisSource::Wheel));
}

#[test]
fn negative_values_accumulate() {
    let frame = AxisFrame::new(0).value(Axis::Vertical, fixed(-1.5)).value(
        Axis::Vertical,
        fixed(4.0),
    );
    assert_eq!(frame.axis.1, fixed(2.5));
}
