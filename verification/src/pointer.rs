//! The pointer state and its focus-transition engine, the mediator handed
//! to grab implementations, and the public pointer handle.

use vstd::prelude::*;
use crate::events::{AxisFrame, ButtonEvent, ButtonState, MotionEvent, RelativeMotionEvent, Serial};
use crate::geometry::Point;
use crate::grab::{GrabStartData, GrabStatus, PointerGrab};
use crate::model::{focus_in_range, focus_view, spec_motion, spec_press, spec_release, spec_set_grab,
    spec_unset_grab, state_inv, state_wf, GrabView, NotifyView, StateView};
use crate::target::{CursorImageStatus, PointerTarget, SeatHandler, TargetHandle};

verus! {

/// Defines the focus behaviour for [`PointerHandle::set_grab`].
#[derive(Debug, Clone, Copy, PartialEq, Eq, Structural)]
pub enum Focus {
    /// Keep the current focus.
    Keep,
    /// Clear the current focus.
    Clear,
}

/// One notification a motion transition is about to deliver: the engine
/// first decides the full list the transition emits, then delivers it in
/// order.
pub(crate) enum PointerNotify<D: SeatHandler> {
    Enter(TargetHandle<D::PointerFocus>, MotionEvent),
    Motion(TargetHandle<D::PointerFocus>, MotionEvent),
    Leave(TargetHandle<D::PointerFocus>, Serial, u32),
    CursorDefault,
}

impl<D: SeatHandler> View for PointerNotify<D> {
    type V = NotifyView;

    closed spec fn view(&self) -> NotifyView {
        match self {
            PointerNotify::Enter(t, e) => NotifyView::Enter { target: t.key as int, event: *e },
            PointerNotify::Motion(t, e) => NotifyView::Motion { target: t.key as int, event: *e },
            PointerNotify::Leave(t, s, time) => NotifyView::Leave {
                target: t.key as int,
                serial: *s,
                time: *time,
            },
            PointerNotify::CursorDefault => NotifyView::CursorDefault,
        }
    }
}

/// Another handle to the same target, identity key preserved.
fn duplicate_handle<D: SeatHandler>(h: &TargetHandle<D::PointerFocus>) -> (r: TargetHandle<
    D::PointerFocus,
>)
    ensures
        r.key == h.key,
{
    TargetHandle { key: h.key, target: h.target.duplicate() }
}

/// Another handle to the same focus, target identity preserved.
fn duplicate_focus<D: SeatHandler>(
    focus: &Option<(TargetHandle<D::PointerFocus>, Point)>,
) -> (r: Option<(TargetHandle<D::PointerFocus>, Point)>)
    ensures
        focus_view(r) == focus_view(*focus),
{
    match focus {
        Some((t, p)) => Some((duplicate_handle::<D>(t), *p)),
        None => None,
    }
}

/// Deliver a decided list of motion notifications, in order, to the
/// targets it names and to the owning context.
fn deliver<D: SeatHandler>(data: &mut D, log: Vec<PointerNotify<D>>) {
    let mut i: usize = 0;
    while i < log.len()
        invariant
            i <= log@.len(),
        decreases log@.len() - i,
    {
        match &log[i] {
            PointerNotify::Enter(t, e) => t.target.enter(data, e),
            PointerNotify::Motion(t, e) => t.target.motion(data, e),
            PointerNotify::Leave(t, s, time) => t.target.leave(data, *s, *time),
            PointerNotify::CursorDefault => data.cursor_image(CursorImageStatus::Default),
        }
        i += 1;
    }
}

/// The shared pointer state together with the engine that mutates it. A
/// grab implementation receives `&mut` to this type as its mediator: the
/// only way a grab can affect pointer state, so that every mutation passes
/// through the transition algorithm below.
pub struct PointerInnerHandle<D: SeatHandler, G> {
    location: Point,
    focus: Option<(TargetHandle<D::PointerFocus>, Point)>,
    pending_focus: Option<(TargetHandle<D::PointerFocus>, Point)>,
    grab: GrabStatus<G>,
    pressed_buttons: Vec<u32>,
}

impl<D: SeatHandler, G> View for PointerInnerHandle<D, G> {
    type V = StateView;

    closed spec fn view(&self) -> StateView {
        StateView {
            location: self.location,
            focus: focus_view(self.focus),
            pending_focus: focus_view(self.pending_focus),
            grab: self.grab.view(),
            pressed: self.pressed_buttons@,
        }
    }
}

impl<D: SeatHandler, G> PointerInnerHandle<D, G> {
    /// The installed grab, with the serial that installed it: what the
    /// slot holds while it is neither empty nor checked out.
    pub closed spec fn installed_grab(&self) -> Option<(Serial, G)> {
        match self.grab {
            GrabStatus::Active(s, g) => Some((s, g)),
            _ => None,
        }
    }

    pub(crate) fn new() -> (r: Self)
        ensures
            r@ == crate::model::initial_state(),
    {
        let r = PointerInnerHandle {
            location: Point::origin(),
            focus: None,
            pending_focus: None,
            grab: GrabStatus::Idle,
            pressed_buttons: Vec::new(),
        };
        proof {
            assert(r@ =~= crate::model::initial_state());
        }
        r
    }

    /// Decide the state change and the notifications of one motion, without
    /// delivering them.
    fn motion_transition(
        &mut self,
        focus: Option<(TargetHandle<D::PointerFocus>, Point)>,
        event: &MotionEvent,
    ) -> (log: Vec<PointerNotify<D>>)
        requires
            state_inv(old(self)@),
            event.wf(),
            focus_in_range(focus_view(focus)),
        ensures
            state_inv(final(self)@),
            final(self)@ == spec_motion(old(self)@, focus_view(focus), *event).0,
            final(self).installed_grab() == old(self).installed_grab(),
            log@.map_values(|n: PointerNotify<D>| n@) == spec_motion(
                old(self)@,
                focus_view(focus),
                *event,
            ).1,
    {
        let ghost s0 = self@;
        let ghost fv = focus_view(focus);
        self.location = event.location;
        let leave = !(match (&self.focus, &focus) {
            (Some((cur, _)), Some((new, _))) => cur.key == new.key,
            _ => false,
        });
        let mut log: Vec<PointerNotify<D>> = Vec::new();
        if leave {
            if let Some((focused, _)) = &self.focus {
                log.push(PointerNotify::Leave(duplicate_handle::<D>(focused), event.serial, event.time));
            }
            self.focus = None;
            log.push(PointerNotify::CursorDefault);
        }
        match focus {
            Some((surface, surface_location)) => {
                let entered = self.focus.is_none();
                let translated = MotionEvent {
                    location: event.location.minus(surface_location),
                    serial: event.serial,
                    time: event.time,
                };
                let dup = duplicate_handle::<D>(&surface);
                self.focus = Some((surface, surface_location));
                if entered {
                    log.push(PointerNotify::Enter(dup, translated));
                } else {
                    log.push(PointerNotify::Motion(dup, translated));
                }
            },
            None => {},
        }
        proof {
            assert(final(self)@ =~= spec_motion(s0, fv, *event).0);
            assert(log@.map_values(|n: PointerNotify<D>| n@) =~= spec_motion(s0, fv, *event).1);
        }
        log
    }

    /// Notify that the pointer moved: runs the focus-transition algorithm
    /// and delivers the notifications it decides. Leave is delivered before
    /// any enter; a target kept by identity receives motion only.
    pub fn motion(
        &mut self,
        data: &mut D,
        focus: Option<(TargetHandle<D::PointerFocus>, Point)>,
        event: &MotionEvent,
    )
        requires
            state_inv(old(self)@),
            event.wf(),
            focus_in_range(focus_view(focus)),
        ensures
            state_inv(final(self)@),
            final(self)@ == spec_motion(old(self)@, focus_view(focus), *event).0,
            final(self).installed_grab() == old(self).installed_grab(),
    {
        let log = self.motion_transition(focus, event);
        deliver(data, log);
    }

    /// Notify about relative pointer motion: the event is forwarded
    /// verbatim to the focused target only, and the state is untouched.
    pub fn relative_motion(
        &mut self,
        data: &mut D,
        _focus: Option<(TargetHandle<D::PointerFocus>, Point)>,
        event: &RelativeMotionEvent,
    )
        ensures
            *final(self) == *old(self),
    {
        if let Some((focused, _)) = &self.focus {
            focused.target.relative_motion(data, event);
        }
    }

    /// Notify that a button was pressed or released: the event goes to the
    /// focused target directly, and the state is untouched.
    pub fn button(&mut self, data: &mut D, event: &ButtonEvent)
        ensures
            *final(self) == *old(self),
    {
        if let Some((focused, _)) = &self.focus {
            focused.target.button(data, event);
        }
    }

    /// Notify of a scroll: the frame goes to the focused target directly,
    /// and the state is untouched.
    pub fn axis(&mut self, data: &mut D, details: AxisFrame)
        ensures
            *final(self) == *old(self),
    {
        if let Some((focused, _)) = &self.focus {
            focused.target.axis(data, details);
        }
    }

    /// Change the current grab on this pointer to the provided grab,
    /// overwriting any current one. Under [`Focus::Clear`], a motion
    /// without focus is synthesised at the current location, forcing an
    /// immediate leave of whatever was focused.
    pub fn set_grab(&mut self, data: &mut D, serial: Serial, focus: Focus, grab: G)
        requires
            state_inv(old(self)@),
        ensures
            state_inv(final(self)@),
            final(self)@ == spec_set_grab(
                old(self)@,
                serial,
                focus matches Focus::Clear,
            ).0,
            final(self).installed_grab() == Some((serial, grab)),
    {
        let ghost s0 = self@;
        self.grab = GrabStatus::Active(serial, grab);
        proof {
            assert(self@ =~= (StateView { grab: GrabView::Active(serial), ..s0 }));
        }
        match focus {
            Focus::Clear => {
                let location = self.location;
                self.motion(data, None, &MotionEvent { location, serial, time: 0 });
            },
            Focus::Keep => {},
        }
    }

    /// Remove any current grab, resetting the pointer to the default
    /// behaviour, and restore the pending focus: the focus computed by the
    /// latest raw motion is replayed as a fresh motion at the current
    /// location.
    pub fn unset_grab(&mut self, data: &mut D, serial: Serial, time: u32)
        requires
            state_inv(old(self)@),
        ensures
            state_inv(final(self)@),
            final(self)@ == spec_unset_grab(old(self)@, serial, time).0,
            final(self)@.focus == old(self)@.pending_focus,
            final(self).installed_grab() is None,
    {
        let ghost s0 = self@;
        self.grab = GrabStatus::Idle;
        proof {
            assert(self@ =~= (StateView { grab: GrabView::Idle, ..s0 }));
        }
        let location = self.location;
        let focus = duplicate_focus::<D>(&self.pending_focus);
        self.motion(data, focus, &MotionEvent { location, serial, time });
    }

    /// Access the current focus of this pointer.
    pub fn current_focus(&self) -> (r: Option<(TargetHandle<D::PointerFocus>, Point)>)
        ensures
            focus_view(r) == self@.focus,
    {
        duplicate_focus::<D>(&self.focus)
    }

    /// Access the current location of this pointer in compositor space.
    pub fn current_location(&self) -> (r: Point)
        ensures
            r == self@.location,
    {
        self.location
    }

    /// The buttons currently physically pressed, including any whose events
    /// a grab intercepted without forwarding.
    pub fn current_pressed(&self) -> (r: &Vec<u32>)
        ensures
            r@ == self@.pressed,
    {
        &self.pressed_buttons
    }

    /// Record a press in the pressed-button set; a code already held is not
    /// recorded twice.
    pub(crate) fn press_button(&mut self, button: u32)
        requires
            state_inv(old(self)@),
        ensures
            state_inv(final(self)@),
            final(self)@ == (StateView { pressed: spec_press(old(self)@.pressed, button), ..old(
                self,
            )@ }),
    {
        let ghost s0 = self@;
        let n = self.pressed_buttons.len();
        let mut i: usize = 0;
        while i < n
            invariant
                i <= n,
                n == self.pressed_buttons@.len(),
                *self == *old(self),
                state_inv(old(self)@),
                forall|k: int| 0 <= k < i ==> self.pressed_buttons@[k] != button,
            decreases n - i,
        {
            if self.pressed_buttons[i] == button {
                proof {
                    assert(old(self)@.pressed[i as int] == button);
                    assert(old(self)@.pressed.contains(button));
                    assert(self@ =~= (StateView {
                        pressed: spec_press(old(self)@.pressed, button),
                        ..old(self)@
                    }));
                }
                return ;
            }
            i += 1;
        }
        proof {
            assert(!s0.pressed.contains(button)) by {
                if s0.pressed.contains(button) {
                    let k = choose|k: int| 0 <= k < s0.pressed.len() && s0.pressed[k] == button;
                    assert(false);
                }
            }
        }
        self.pressed_buttons.push(button);
        proof {
            assert(self@.pressed.no_duplicates()) by {
                assert(forall|k: int| 0 <= k < s0.pressed.len() ==> s0.pressed[k] != button);
            }
            assert(self@ =~= (StateView { pressed: spec_press(s0.pressed, button), ..s0 }));
        }
    }

    /// Remove every record of a code from the pressed-button set.
    pub(crate) fn release_button(&mut self, button: u32)
        requires
            state_inv(old(self)@),
        ensures
            state_inv(final(self)@),
            final(self)@ == (StateView { pressed: spec_release(old(self)@.pressed, button), ..old(
                self,
            )@ }),
    {
        let ghost s0 = self@;
        let ghost pred = crate::model::keeps_other(button);
        let n = self.pressed_buttons.len();
        let mut kept: Vec<u32> = Vec::new();
        let mut i: usize = 0;
        while i < n
            invariant
                i <= n,
                n == self.pressed_buttons@.len(),
                *self == *old(self),
                pred == crate::model::keeps_other(button),
                kept@ == self.pressed_buttons@.subrange(0, i as int).filter(pred),
            decreases n - i,
        {
            let b = self.pressed_buttons[i];
            let ghost prefix = self.pressed_buttons@.subrange(0, i as int);
            if b != button {
                kept.push(b);
            }
            proof {
                assert(self.pressed_buttons@.subrange(0, i as int + 1) =~= prefix.push(b));
                prefix.lemma_filter_push(b, pred);
            }
            i += 1;
        }
        proof {
            assert(self.pressed_buttons@.subrange(0, n as int) =~= self.pressed_buttons@);
        }
        self.pressed_buttons = kept;
        proof {
            crate::model::lemma_filter_no_duplicates(s0.pressed, pred);
            assert(self@ =~= (StateView { pressed: spec_release(s0.pressed, button), ..s0 }));
        }
    }
}

/// One routed event: what a pointer-handle operation hands to the active
/// grab, or applies directly when no grab is installed.
pub(crate) enum GrabEvent<D: SeatHandler> {
    Motion { focus: Option<(TargetHandle<D::PointerFocus>, Point)>, event: MotionEvent },
    RelativeMotion { focus: Option<(TargetHandle<D::PointerFocus>, Point)>, event: RelativeMotionEvent },
    Button { event: ButtonEvent },
    Axis { frame: AxisFrame },
}

impl<D: SeatHandler> GrabEvent<D> {
    /// Every coordinate the event carries is in range.
    pub(crate) open spec fn wf(&self) -> bool {
        match self {
            GrabEvent::Motion { focus, event } => event.wf() && focus_in_range(focus_view(*focus)),
            GrabEvent::RelativeMotion { focus, event: _ } => focus_in_range(focus_view(*focus)),
            GrabEvent::Button { event: _ } => true,
            GrabEvent::Axis { frame: _ } => true,
        }
    }

    /// The state after this event is applied with the pass-through
    /// behaviour: motion runs the transition algorithm; the other events
    /// leave the state untouched.
    pub(crate) open spec fn apply_default(&self, s: StateView) -> StateView {
        match self {
            GrabEvent::Motion { focus, event } => spec_motion(s, focus_view(*focus), *event).0,
            GrabEvent::RelativeMotion { .. } => s,
            GrabEvent::Button { .. } => s,
            GrabEvent::Axis { .. } => s,
        }
    }
}

impl<D: SeatHandler, G> PointerInnerHandle<D, G> {
    /// Apply one routed event with the pass-through behaviour: what an
    /// uninstalled grab slot, or a discarded one, means for the event.
    fn apply_event_default(&mut self, data: &mut D, event: GrabEvent<D>)
        requires
            state_inv(old(self)@),
            event.wf(),
        ensures
            state_inv(final(self)@),
            final(self)@ == event.apply_default(old(self)@),
    {
        match event {
            GrabEvent::Motion { focus, event: ev } => self.motion(data, focus, &ev),
            GrabEvent::RelativeMotion { focus, event: ev } => self.relative_motion(
                data,
                focus,
                &ev,
            ),
            GrabEvent::Button { event: ev } => self.button(data, &ev),
            GrabEvent::Axis { frame } => self.axis(data, frame),
        }
    }
}

impl<D: SeatHandler, G: PointerGrab<D>> PointerInnerHandle<D, G> {
    /// The grab-dispatch primitive. The grab slot is checked out (replaced
    /// by the borrowed marker) so the invoked grab may replace or clear it
    /// through the mediator without aliasing; if the slot is still checked
    /// out afterwards the original grab is put back. A grab whose recorded
    /// start-focus target has died is silently discarded and the event gets
    /// the pass-through behaviour instead.
    pub(crate) fn with_grab(&mut self, data: &mut D, event: GrabEvent<D>)
        requires
            state_inv(old(self)@),
            !(old(self)@.grab matches GrabView::Borrowed),
            event.wf(),
        ensures
            state_inv(final(self)@),
            !(final(self)@.grab matches GrabView::Borrowed),
            final(self)@.pressed == old(self)@.pressed,
            final(self)@.pending_focus == old(self)@.pending_focus,
            (old(self)@.grab matches GrabView::Idle) ==> final(self)@ == event.apply_default(
                old(self)@,
            ),
    {
        let ghost s0 = self@;
        let mut taken = GrabStatus::Borrowed;
        core::mem::swap(&mut self.grab, &mut taken);
        match taken {
            GrabStatus::Borrowed => {
                proof {
                    assert(false);
                }
            },
            GrabStatus::Active(serial, mut handler) => {
                let dead = match &handler.start_data().focus {
                    Some((f, _)) => !f.target.alive(),
                    None => false,
                };
                if dead {
                    // The grab recorded a start focus that is no longer
                    // alive: discard the grab rather than keep a dangling
                    // reference, and treat the slot as uninstalled.
                    self.grab = GrabStatus::Idle;
                    proof {
                        assert(self@ =~= (StateView { grab: GrabView::Idle, ..s0 }));
                    }
                    self.apply_event_default(data, event);
                } else {
                    match event {
                        GrabEvent::Motion { focus, event: ev } => handler.motion(
                            data,
                            self,
                            focus,
                            &ev,
                        ),
                        GrabEvent::RelativeMotion { focus, event: ev } => handler.relative_motion(
                            data,
                            self,
                            focus,
                            &ev,
                        ),
                        GrabEvent::Button { event: ev } => handler.button(data, self, &ev),
                        GrabEvent::Axis { frame } => handler.axis(data, self, frame),
                    }
                    let restore = match &self.grab {
                        GrabStatus::Borrowed => true,
                        _ => false,
                    };
                    if restore {
                        // The grab was neither replaced nor cleared: put it
                        // back in place.
                        self.grab = GrabStatus::Active(serial, handler);
                    }
                }
            },
            GrabStatus::Idle => {
                self.grab = GrabStatus::Idle;
                proof {
                    assert(self@ =~= s0);
                }
                self.apply_event_default(data, event);
            },
        }
    }
}

/// The public entry point for pointer input: owns the pointer state and
/// routes every notification through the active grab, or applies the
/// pass-through behaviour while none is installed.
///
/// The type is generic in the grab it can hold; a consumer with several
/// grab kinds erases them behind one enum implementing [`PointerGrab`],
/// and a consumer that never installs one uses [`DefaultGrab`] for the
/// parameter. All operations take the handle exclusively: an embedding
/// that shares one pointer between threads serialises the calls behind a
/// lock of its own.
pub struct PointerHandle<D: SeatHandler, G> {
    inner: PointerInnerHandle<D, G>,
}

impl<D: SeatHandler, G> View for PointerHandle<D, G> {
    type V = StateView;

    closed spec fn view(&self) -> StateView {
        self.inner@
    }
}

impl<D: SeatHandler, G> PointerHandle<D, G> {
    /// A pointer with no focus, no pending focus, no grab, no pressed
    /// buttons, at the origin.
    pub fn new() -> (r: Self)
        ensures
            r@ == crate::model::initial_state(),
    {
        PointerHandle { inner: PointerInnerHandle::new() }
    }

    /// Check whether this pointer is currently grabbed with this serial.
    pub fn has_grab(&self, serial: Serial) -> (r: bool)
        ensures
            r == (self@.grab == GrabView::Active(serial)),
    {
        match &self.inner.grab {
            GrabStatus::Active(s, _) => s.0 == serial.0,
            _ => false,
        }
    }

    /// Check whether this pointer is currently being grabbed.
    pub fn is_grabbed(&self) -> (r: bool)
        ensures
            r == !(self@.grab matches GrabView::Idle),
    {
        !(matches!(self.inner.grab, GrabStatus::Idle))
    }

    /// Access the current location of this pointer in compositor space.
    pub fn current_location(&self) -> (r: Point)
        ensures
            r == self@.location,
    {
        self.inner.current_location()
    }

    /// Retrieve the current pointer focus.
    pub fn current_focus(&self) -> (r: Option<TargetHandle<D::PointerFocus>>)
        ensures
            (r is Some) == (self@.focus is Some),
            (r matches Some(t) ==> self@.focus matches Some(f) && f.0 == t.key as int),
    {
        match &self.inner.focus {
            Some((t, _)) => Some(duplicate_handle::<D>(t)),
            None => None,
        }
    }
}

impl<D: SeatHandler, G: PointerGrab<D>> PointerHandle<D, G> {
    /// The model view of the installed grab's snapshot — recorded focus
    /// and recorded location — if a grab is installed.
    pub closed spec fn installed_start_view(&self) -> Option<(Option<(int, Point)>, Point)> {
        match self.inner.installed_grab() {
            Some((_, g)) => Some(g.start_data_view()),
            None => None,
        }
    }

    /// Change the current grab on this pointer to the provided grab,
    /// overwriting any current one. Under [`Focus::Clear`] any currently
    /// focused target is left before the grab sees its first event.
    pub fn set_grab(&mut self, data: &mut D, grab: G, serial: Serial, focus: Focus)
        requires
            state_wf(old(self)@),
        ensures
            state_wf(final(self)@),
            final(self)@ == spec_set_grab(old(self)@, serial, focus matches Focus::Clear).0,
            final(self)@.grab == GrabView::Active(serial),
            final(self).installed_start_view() == Some(grab.start_data_view()),
    {
        self.inner.set_grab(data, serial, focus, grab);
    }

    /// Remove any current grab on this pointer, resetting it to the default
    /// behaviour and restoring the focus the latest raw motion computed.
    pub fn unset_grab(&mut self, data: &mut D, serial: Serial, time: u32)
        requires
            state_wf(old(self)@),
        ensures
            state_wf(final(self)@),
            final(self)@ == spec_unset_grab(old(self)@, serial, time).0,
            final(self)@.focus == old(self)@.pending_focus,
            final(self)@.grab == GrabView::Idle,
            final(self).installed_start_view() is None,
    {
        self.inner.unset_grab(data, serial, time);
    }

    /// The snapshot recorded by the installed grab, if any: a copy of the
    /// grab's own start data, the focus and coordinates from when the
    /// interaction began.
    pub fn grab_start_data(&self) -> (r: Option<GrabStartData<D>>)
        ensures
            (r is Some) == (self@.grab matches GrabView::Active(_)),
            (r matches Some(sd) ==> self.installed_start_view() matches Some(v)
                && sd.focus_view() == v.0 && sd.location == v.1),
    {
        match &self.inner.grab {
            GrabStatus::Active(_, g) => {
                proof {
                    assert(self.installed_start_view() == Some(g.start_data_view()));
                }
                Some(g.start_data().duplicate())
            },
            _ => None,
        }
    }

    /// Notify that the pointer moved. The new focus is remembered as the
    /// pending focus, then the motion is routed through the active grab;
    /// with no grab installed the focus-transition algorithm runs as given
    /// by [`spec_motion`].
    pub fn motion(
        &mut self,
        data: &mut D,
        focus: Option<(TargetHandle<D::PointerFocus>, Point)>,
        event: &MotionEvent,
    )
        requires
            state_wf(old(self)@),
            event.wf(),
            focus_in_range(focus_view(focus)),
        ensures
            state_wf(final(self)@),
            final(self)@.pending_focus == focus_view(focus),
            final(self)@.pressed == old(self)@.pressed,
            (old(self)@.grab matches GrabView::Idle) ==> final(self)@ == spec_motion(
                StateView { pending_focus: focus_view(focus), ..old(self)@ },
                focus_view(focus),
                *event,
            ).0,
    {
        self.inner.pending_focus = duplicate_focus::<D>(&focus);
        proof {
            assert(self@ =~= (StateView { pending_focus: focus_view(focus), ..old(self)@ }));
        }
        self.inner.with_grab(data, GrabEvent::Motion { focus, event: *event });
    }

    /// Notify about relative pointer motion, routed through the active
    /// grab; with no grab installed it reaches the focused target verbatim
    /// and changes nothing but the pending focus.
    pub fn relative_motion(
        &mut self,
        data: &mut D,
        focus: Option<(TargetHandle<D::PointerFocus>, Point)>,
        event: &RelativeMotionEvent,
    )
        requires
            state_wf(old(self)@),
            focus_in_range(focus_view(focus)),
        ensures
            state_wf(final(self)@),
            final(self)@.pending_focus == focus_view(focus),
            final(self)@.pressed == old(self)@.pressed,
            (old(self)@.grab matches GrabView::Idle) ==> final(self)@ == (StateView {
                pending_focus: focus_view(focus),
                ..old(self)@
            }),
    {
        self.inner.pending_focus = duplicate_focus::<D>(&focus);
        proof {
            assert(self@ =~= (StateView { pending_focus: focus_view(focus), ..old(self)@ }));
        }
        self.inner.with_grab(data, GrabEvent::RelativeMotion { focus, event: *event });
    }

    /// Notify that a button was pressed or released. The pressed-button
    /// record is updated first and holds whether or not the active grab
    /// forwards the event; the event is then routed through the grab.
    pub fn button(&mut self, data: &mut D, event: &ButtonEvent)
        requires
            state_wf(old(self)@),
        ensures
            state_wf(final(self)@),
            final(self)@.pressed == crate::model::spec_pressed_after(old(self)@.pressed, *event),
            final(self)@.pending_focus == old(self)@.pending_focus,
            (old(self)@.grab matches GrabView::Idle) ==> final(self)@ == (StateView {
                pressed: crate::model::spec_pressed_after(old(self)@.pressed, *event),
                ..old(self)@
            }),
    {
        match event.state {
            ButtonState::Pressed => self.inner.press_button(event.button),
            ButtonState::Released => self.inner.release_button(event.button),
        }
        self.inner.with_grab(data, GrabEvent::Button { event: *event });
    }

    /// Notify of a scroll, as one logical axis frame, routed through the
    /// active grab; with no grab installed it reaches the focused target
    /// verbatim and changes no state.
    pub fn axis(&mut self, data: &mut D, details: AxisFrame)
        requires
            state_wf(old(self)@),
        ensures
            state_wf(final(self)@),
            final(self)@.pressed == old(self)@.pressed,
            final(self)@.pending_focus == old(self)@.pending_focus,
            (old(self)@.grab matches GrabView::Idle) ==> final(self)@ == old(self)@,
    {
        self.inner.with_grab(data, GrabEvent::Axis { frame: details });
    }
}

} // verus!
