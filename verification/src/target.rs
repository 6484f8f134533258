//! The capability a focus target must satisfy to receive pointer
//! notifications, and the context trait through which the core reaches the
//! owning compositor state.

use vstd::prelude::*;
use crate::events::{AxisFrame, ButtonEvent, MotionEvent, RelativeMotionEvent, Serial};

verus! {

/// The cursor image a context is asked to show. The routing core itself
/// only ever requests the default image, when focus is cleared.
#[derive(Debug, Clone, Copy, PartialEq, Eq, Structural)]
pub enum CursorImageStatus {
    /// Show no cursor image.
    Hidden,
    /// Show the default cursor image.
    Default,
}

/// A focus target paired with its identity: the routing core compares
/// focus by the key alone, never by the payload's structural equality, so
/// two structurally equal targets with different keys are different focus
/// owners, and the reverse. The embedding assigns each target object one
/// stable key (a protocol id, an allocation index).
pub struct TargetHandle<T> {
    /// The identity of the target.
    pub key: u64,
    /// The consumer's object that receives the notifications.
    pub target: T,
}

/// The compositor state the pointer routing core is embedded in. It names
/// the focus-target type and exposes the cursor-image sink, which the core
/// invokes with [`CursorImageStatus::Default`] whenever focus is cleared.
pub trait SeatHandler: Sized {
    /// The type of object that can receive pointer focus.
    type PointerFocus: PointerTarget<Self>;

    /// The cursor-image sink of the owning context.
    fn cursor_image(&mut self, image: CursorImageStatus);
}

/// Trait representing objects that can receive pointer interactions.
///
/// Duplication and liveness stand in for the reference-counted handles a
/// compositor hands out: `duplicate` yields another handle to the same
/// underlying object; `alive` reports whether the target still exists, and
/// may change between any two calls. Nothing is demanded of the
/// implementations: focus decisions rest on the keys of
/// [`TargetHandle`] alone.
pub trait PointerTarget<D>: Sized {
    /// Another handle to the same target.
    fn duplicate(&self) -> Self;

    /// Whether the target still exists. Liveness is externally owned and
    /// may change between any two calls.
    fn alive(&self) -> bool;

    /// A pointer entered this target.
    fn enter(&self, data: &mut D, event: &MotionEvent);

    /// A pointer moved over this target.
    fn motion(&self, data: &mut D, event: &MotionEvent);

    /// A pointer that provides relative motion moved over this target.
    fn relative_motion(&self, data: &mut D, event: &RelativeMotionEvent);

    /// A pointer button was pressed or released over this target.
    fn button(&self, data: &mut D, event: &ButtonEvent);

    /// A pointer scrolled on an axis over this target.
    fn axis(&self, data: &mut D, frame: AxisFrame);

    /// The pointer left this target.
    fn leave(&self, data: &mut D, serial: Serial, time: u32);
}

} // verus!
