//! The immutable value records that describe a single pointer occurrence:
//! motion, relative motion, a button press or release, and one logical
//! scroll gesture assembled as an axis frame.

use vstd::prelude::*;
use crate::geometry::Point;

verus! {

/// A monotonically assigned identifier that correlates a triggering event
/// with the grab or operation it authorised.
#[derive(Debug, Clone, Copy, PartialEq, Eq, Structural)]
pub struct Serial(pub u32);

/// The physical state a button event reports.
#[derive(Debug, Clone, Copy, PartialEq, Eq, Structural)]
pub enum ButtonState {
    Pressed,
    Released,
}

/// One of the two independent scroll directions.
#[derive(Debug, Clone, Copy, PartialEq, Eq, Structural)]
pub enum Axis {
    Horizontal,
    Vertical,
}

/// The kind of hardware that produced a scroll gesture.
#[derive(Debug, Clone, Copy, PartialEq, Eq, Structural)]
pub enum AxisSource {
    Wheel,
    Finger,
    Continuous,
    WheelTilt,
}

/// Pointer motion event.
#[derive(Debug, Clone, Copy, PartialEq, Eq, Structural)]
pub struct MotionEvent {
    /// Location of the pointer in compositor space.
    pub location: Point,
    /// Serial of the event.
    pub serial: Serial,
    /// Timestamp of the event, with millisecond granularity.
    pub time: u32,
}

impl MotionEvent {
    /// The core accepts a motion event whose location is within range.
    pub open spec fn wf(self) -> bool {
        self.location.in_range()
    }
}

/// Relative pointer motion event: a target-independent delta, never
/// translated by a surface origin.
#[derive(Debug, Clone, Copy, PartialEq, Eq, Structural)]
pub struct RelativeMotionEvent {
    /// Motion vector.
    pub delta: Point,
    /// Unaccelerated motion vector.
    pub delta_unaccel: Point,
    /// Timestamp in microseconds.
    pub utime: u64,
}

/// Pointer button press or release notification. The location of the click
/// is given by the last motion or enter event.
#[derive(Debug, Clone, Copy, PartialEq, Eq, Structural)]
pub struct ButtonEvent {
    /// Serial of the event.
    pub serial: Serial,
    /// Timestamp with millisecond granularity, with an undefined base.
    pub time: u32,
    /// Button code that produced the event, as the input layer reports it.
    pub button: u32,
    /// Physical state of the button.
    pub state: ButtonState,
}

/// A frame of pointer axis events, assembled with the builder methods
/// below; one frame stands for one logical scroll gesture.
#[derive(Debug, Clone, Copy, PartialEq, Eq)]
pub struct AxisFrame {
    /// Source of the axis event, if known.
    pub source: Option<AxisSource>,
    /// Time of the axis event.
    pub time: u32,
    /// Accumulated scroll delta per axis (horizontal, vertical), in the
    /// embedding's fixed-point scroll unit.
    pub axis: (i64, i64),
    /// Discrete representation of the scroll, as whole steps per axis, if
    /// available.
    pub discrete: Option<(i32, i32)>,
    /// Whether each axis is considered to have stopped moving; meaningful
    /// for finger-driven sources, which must signal the end of a gesture.
    pub stop: (bool, bool),
}

impl AxisFrame {
    /// Create a new frame of axis events, empty on both axes.
    pub fn new(time: u32) -> (r: Self)
        ensures
            r == (AxisFrame {
                source: None,
                time,
                axis: (0i64, 0i64),
                discrete: None,
                stop: (false, false),
            }),
    {
        AxisFrame { source: None, time, axis: (0i64, 0i64), discrete: None, stop: (false, false) }
    }

    /// Specify the source of the axis events. At most one source belongs to
    /// a frame; a later call overwrites an earlier one.
    pub fn source(self, source: AxisSource) -> (r: Self)
        ensures
            r == (AxisFrame { source: Some(source), ..self }),
    {
        AxisFrame { source: Some(source), ..self }
    }

    /// Specify discrete scrolling steps for one axis. Overwrites any earlier
    /// step count on that axis and leaves the other axis untouched.
    pub fn discrete(self, axis: Axis, steps: i32) -> (r: Self)
        ensures
            ({
                let cur = match self.discrete {
                    Some(d) => d,
                    None => (0i32, 0i32),
                };
                match axis {
                    Axis::Horizontal => r == (AxisFrame {
                        discrete: Some((steps, cur.1)),
                        ..self
                    }),
                    Axis::Vertical => r == (AxisFrame { discrete: Some((cur.0, steps)), ..self }),
                }
            }),
    {
        let cur = match self.discrete {
            Some(d) => d,
            None => (0i32, 0i32),
        };
        match axis {
            Axis::Horizontal => AxisFrame { discrete: Some((steps, cur.1)), ..self },
            Axis::Vertical => AxisFrame { discrete: Some((cur.0, steps)), ..self },
        }
    }

    /// Add a scroll delta to one axis. Deltas given to the same axis within
    /// one frame accumulate; the other axis is untouched.
    pub fn value(self, axis: Axis, value: i64) -> (r: Self)
        requires
            (axis matches Axis::Horizontal ==> i64::MIN <= self.axis.0 + value <= i64::MAX),
            (axis matches Axis::Vertical ==> i64::MIN <= self.axis.1 + value <= i64::MAX),
        ensures
            match axis {
                Axis::Horizontal => r == (AxisFrame {
                    axis: ((self.axis.0 + value) as i64, self.axis.1),
                    ..self
                }),
                Axis::Vertical => r == (AxisFrame {
                    axis: (self.axis.0, (self.axis.1 + value) as i64),
                    ..self
                }),
            },
    {
        match axis {
            Axis::Horizontal => AxisFrame { axis: (self.axis.0 + value, self.axis.1), ..self },
            Axis::Vertical => AxisFrame { axis: (self.axis.0, self.axis.1 + value), ..self },
        }
    }

    /// Mark one axis as stopped. The flag is sticky for the rest of the
    /// frame; the other axis is untouched.
    pub fn stop(self, axis: Axis) -> (r: Self)
        ensures
            match axis {
                Axis::Horizontal => r == (AxisFrame { stop: (true, self.stop.1), ..self }),
                Axis::Vertical => r == (AxisFrame { stop: (self.stop.0, true), ..self }),
            },
    {
        match axis {
            Axis::Horizontal => AxisFrame { stop: (true, self.stop.1), ..self },
            Axis::Vertical => AxisFrame { stop: (self.stop.0, true), ..self },
        }
    }
}

} // verus!
