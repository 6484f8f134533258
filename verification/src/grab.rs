//! The grab capability: the contract an interception handler satisfies, the
//! snapshot taken when a grab starts, and the default pass-through grab
//! used while no interception is installed.

use vstd::prelude::*;
use crate::events::{AxisFrame, ButtonEvent, MotionEvent, RelativeMotionEvent, Serial};
use crate::geometry::Point;
use crate::model::{focus_view, focus_in_range, state_inv};
use crate::pointer::PointerInnerHandle;
use crate::target::{PointerTarget, SeatHandler, TargetHandle};

verus! {

/// The snapshot of the pointer state at the moment a grab is installed:
/// the focus and the location under the pointer, kept so that consumers
/// such as drag implementations know the original target.
pub struct GrabStartData<D: SeatHandler> {
    /// The focused target and its origin offset when the grab started.
    pub focus: Option<(TargetHandle<D::PointerFocus>, Point)>,
    /// The pointer location when the grab started.
    pub location: Point,
}

impl<D: SeatHandler> GrabStartData<D> {
    /// The identity-and-offset view of the recorded focus.
    pub open spec fn focus_view(&self) -> Option<(int, Point)> {
        focus_view(self.focus)
    }

    /// Another snapshot recording the same target and coordinates.
    pub fn duplicate(&self) -> (r: Self)
        ensures
            r.focus_view() == self.focus_view(),
            r.location == self.location,
    {
        let focus = match &self.focus {
            Some((t, p)) => Some((
                TargetHandle { key: t.key, target: t.target.duplicate() },
                *p,
            )),
            None => None,
        };
        GrabStartData { focus, location: self.location }
    }
}

/// The capability an interception handler satisfies. Each method receives
/// the mediator (a [`PointerInnerHandle`]) through which it may read the
/// pointer state, forward events to the real target, or install and remove
/// grabs. A grab may not touch the pressed-button record or the pending
/// focus: neither is reachable through the mediator, and the contracts
/// state as much.
pub trait PointerGrab<D: SeatHandler>: Sized {
    /// The model view of the snapshot this grab reports: the recorded
    /// focus, by identity and offset, and the recorded location. An
    /// implementation that records a real snapshot overrides this; the
    /// default names an empty one.
    open spec fn start_data_view(&self) -> (Option<(int, Point)>, Point) {
        (None::<(int, Point)>, Point { x: 0, y: 0 })
    }

    /// The snapshot from installation time.
    fn start_data(&self) -> (r: &GrabStartData<D>)
        ensures
            r.focus_view() == self.start_data_view().0,
            r.location == self.start_data_view().1,
    ;

    /// A motion notification was routed to this grab.
    fn motion(
        &mut self,
        data: &mut D,
        handle: &mut PointerInnerHandle<D, Self>,
        focus: Option<(TargetHandle<D::PointerFocus>, Point)>,
        event: &MotionEvent,
    )
        requires
            state_inv(old(handle)@),
            event.wf(),
            focus_in_range(focus_view(focus)),
        ensures
            state_inv(final(handle)@),
            final(handle)@.pressed == old(handle)@.pressed,
            final(handle)@.pending_focus == old(handle)@.pending_focus,
    ;

    /// A relative-motion notification was routed to this grab.
    fn relative_motion(
        &mut self,
        data: &mut D,
        handle: &mut PointerInnerHandle<D, Self>,
        focus: Option<(TargetHandle<D::PointerFocus>, Point)>,
        event: &RelativeMotionEvent,
    )
        requires
            state_inv(old(handle)@),
            focus_in_range(focus_view(focus)),
        ensures
            state_inv(final(handle)@),
            final(handle)@.pressed == old(handle)@.pressed,
            final(handle)@.pending_focus == old(handle)@.pending_focus,
    ;

    /// A button notification was routed to this grab.
    fn button(&mut self, data: &mut D, handle: &mut PointerInnerHandle<D, Self>, event: &ButtonEvent)
        requires
            state_inv(old(handle)@),
        ensures
            state_inv(final(handle)@),
            final(handle)@.pressed == old(handle)@.pressed,
            final(handle)@.pending_focus == old(handle)@.pending_focus,
    ;

    /// An axis frame was routed to this grab.
    fn axis(&mut self, data: &mut D, handle: &mut PointerInnerHandle<D, Self>, details: AxisFrame)
        requires
            state_inv(old(handle)@),
        ensures
            state_inv(final(handle)@),
            final(handle)@.pressed == old(handle)@.pressed,
            final(handle)@.pending_focus == old(handle)@.pending_focus,
    ;
}

/// The pass-through grab: every notification is forwarded unmodified to
/// whatever the mediator reports as current focus, mirroring what
/// unintercepted hardware input would do. This is the behaviour applied
/// while no grab is installed, and consumers may also install it
/// explicitly.
pub struct DefaultGrab<D: SeatHandler> {
    start_data: GrabStartData<D>,
}

impl<D: SeatHandler> DefaultGrab<D> {
    /// A pass-through grab; its start data records no focus and the origin.
    pub fn new() -> (r: Self)
        ensures
            r.start_data_view() == (None::<(int, Point)>, Point { x: 0, y: 0 }),
    {
        DefaultGrab {
            start_data: GrabStartData { focus: None, location: Point::origin() },
        }
    }
}

impl<D: SeatHandler> PointerGrab<D> for DefaultGrab<D> {
    closed spec fn start_data_view(&self) -> (Option<(int, Point)>, Point) {
        (focus_view(self.start_data.focus), self.start_data.location)
    }

    fn start_data(&self) -> (r: &GrabStartData<D>) {
        &self.start_data
    }

    fn motion(
        &mut self,
        data: &mut D,
        handle: &mut PointerInnerHandle<D, Self>,
        focus: Option<(TargetHandle<D::PointerFocus>, Point)>,
        event: &MotionEvent,
    )
        ensures
            final(handle)@ == crate::model::spec_motion(
                old(handle)@,
                focus_view(focus),
                *event,
            ).0,
    {
        handle.motion(data, focus, event);
    }

    fn relative_motion(
        &mut self,
        data: &mut D,
        handle: &mut PointerInnerHandle<D, Self>,
        focus: Option<(TargetHandle<D::PointerFocus>, Point)>,
        event: &RelativeMotionEvent,
    )
        ensures
            *final(handle) == *old(handle),
    {
        handle.relative_motion(data, focus, event);
    }

    fn button(
        &mut self,
        data: &mut D,
        handle: &mut PointerInnerHandle<D, Self>,
        event: &ButtonEvent,
    )
        ensures
            *final(handle) == *old(handle),
    {
        handle.button(data, event);
    }

    fn axis(&mut self, data: &mut D, handle: &mut PointerInnerHandle<D, Self>, details: AxisFrame)
        ensures
            *final(handle) == *old(handle),
    {
        handle.axis(data, details);
    }
}

/// The grab slot: no interception, an installed grab with the serial that
/// created it, or the transient marker held while the slot's owner is
/// invoking the grab.
pub(crate) enum GrabStatus<G> {
    Idle,
    Active(Serial, G),
    Borrowed,
}

impl<G> GrabStatus<G> {
    /// The slot as the model sees it.
    pub(crate) open spec fn view(&self) -> crate::model::GrabView {
        match self {
            GrabStatus::Idle => crate::model::GrabView::Idle,
            GrabStatus::Active(s, _) => crate::model::GrabView::Active(*s),
            GrabStatus::Borrowed => crate::model::GrabView::Borrowed,
        }
    }
}

} // verus!
