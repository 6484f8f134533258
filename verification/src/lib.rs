//! Pointer-input routing core for a display-server compositor.
//!
//! The library tracks which on-screen target currently owns pointer focus,
//! translates raw pointer events (motion, relative motion, button, scroll)
//! into per-target notifications, and lets privileged code temporarily
//! intercept all pointer events through a pluggable grab.

pub mod events;
pub mod geometry;
pub mod grab;
pub mod lemmas;
pub mod model;
pub mod pointer;
pub mod target;

pub use events::{Axis, AxisFrame, AxisSource, ButtonEvent, ButtonState, MotionEvent,
    RelativeMotionEvent, Serial};
pub use geometry::{Point, COORD_LIMIT};
pub use grab::{DefaultGrab, GrabStartData, PointerGrab};
pub use pointer::{Focus, PointerHandle, PointerInnerHandle};
pub use target::{CursorImageStatus, PointerTarget, SeatHandler, TargetHandle};
