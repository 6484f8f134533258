//! The mathematical model of the routing core: an abstract pointer state,
//! the notifications one operation emits, and the transition functions the
//! executable code is proved against.
//!
//! Targets appear in the model through their identity alone (the key of a
//! [`TargetHandle`]): focus decisions are identity decisions.

use vstd::prelude::*;
use crate::events::{ButtonEvent, ButtonState, MotionEvent, Serial};
use crate::geometry::Point;
use crate::target::TargetHandle;

verus! {

/// The grab slot as the model sees it: no interception, an installed grab
/// with the serial that created it, or the transient marker held while a
/// grab is being invoked.
pub enum GrabView {
    Idle,
    Active(Serial),
    Borrowed,
}

/// The abstract pointer state.
#[verifier::ext_equal]
pub struct StateView {
    /// Last known absolute pointer location.
    pub location: Point,
    /// The currently entered target (by identity) and its origin offset.
    pub focus: Option<(int, Point)>,
    /// The focus computed by the latest raw motion notification, kept so
    /// that ending a grab can restore it.
    pub pending_focus: Option<(int, Point)>,
    /// The grab slot.
    pub grab: GrabView,
    /// Button codes physically held down, without duplicates.
    pub pressed: Seq<u32>,
}

/// One notification a motion transition emits, to a target or to the
/// owning context. Relative motion, buttons and axis frames are forwarded
/// to the focused target directly and change no state, so the model does
/// not order them.
pub enum NotifyView {
    /// The target was entered; the event location is target-local.
    Enter { target: int, event: MotionEvent },
    /// The pointer moved within the target; the event location is
    /// target-local.
    Motion { target: int, event: MotionEvent },
    /// The target was left.
    Leave { target: int, serial: Serial, time: u32 },
    /// The owning context was asked to show the default cursor image.
    CursorDefault,
}

/// The state a freshly registered pointer starts in.
pub open spec fn initial_state() -> StateView {
    StateView {
        location: Point { x: 0, y: 0 },
        focus: None,
        pending_focus: None,
        grab: GrabView::Idle,
        pressed: Seq::empty(),
    }
}

/// The identity-and-offset view of an executable focus value.
pub open spec fn focus_view<T>(focus: Option<(TargetHandle<T>, Point)>) -> Option<(int, Point)> {
    match focus {
        Some((t, p)) => Some((t.key as int, p)),
        None => None,
    }
}

/// The offset of a focus value, if any, is within coordinate range.
pub open spec fn focus_in_range(focus: Option<(int, Point)>) -> bool {
    match focus {
        Some((_, p)) => p.in_range(),
        None => true,
    }
}

/// What always holds of a pointer state between notifications: every
/// stored coordinate is in range and no button code is recorded twice.
pub open spec fn state_inv(s: StateView) -> bool {
    &&& s.location.in_range()
    &&& focus_in_range(s.focus)
    &&& focus_in_range(s.pending_focus)
    &&& s.pressed.no_duplicates()
}

/// A state at rest additionally has its grab slot not checked out: the
/// transient borrowed marker is only ever held while a grab is being
/// invoked.
pub open spec fn state_wf(s: StateView) -> bool {
    &&& state_inv(s)
    &&& !(s.grab matches GrabView::Borrowed)
}

/// Whether target `t` is the entered one in state `s`.
pub open spec fn entered_state(s: StateView, t: int) -> bool {
    s.focus matches Some((c, _)) && c == t
}

/// Whether the current and the new focus refer to the same target, by
/// identity; only then does a motion stay within one target.
pub open spec fn same_focus_target(cur: Option<(int, Point)>, new: Option<(int, Point)>) -> bool {
    match (cur, new) {
        (Some((c, _)), Some((n, _))) => c == n,
        _ => false,
    }
}

/// The motion transition: the new state and the notifications emitted, in
/// order. Leave is decided first and delivered before any enter; a target
/// kept by identity receives motion only, with its offset refreshed.
pub open spec fn spec_motion(s: StateView, focus: Option<(int, Point)>, event: MotionEvent) -> (
    StateView,
    Seq<NotifyView>,
) {
    let leave = !same_focus_target(s.focus, focus);
    let leave_log: Seq<NotifyView> = if leave {
        (match s.focus {
            Some((t, _)) => seq![
                NotifyView::Leave { target: t, serial: event.serial, time: event.time },
            ],
            None => seq![],
        }) + seq![NotifyView::CursorDefault]
    } else {
        seq![]
    };
    let s1 = StateView {
        location: event.location,
        focus: if leave {
            None
        } else {
            s.focus
        },
        ..s
    };
    match focus {
        None => (s1, leave_log),
        Some((t, off)) => {
            let translated = MotionEvent {
                location: event.location.spec_minus(off),
                serial: event.serial,
                time: event.time,
            };
            let s2 = StateView { focus: Some((t, off)), ..s1 };
            let entry = if leave {
                NotifyView::Enter { target: t, event: translated }
            } else {
                NotifyView::Motion { target: t, event: translated }
            };
            (s2, leave_log + seq![entry])
        },
    }
}

/// The pressed-button set after a press: unchanged if the code is already
/// held, appended otherwise.
pub open spec fn spec_press(pressed: Seq<u32>, button: u32) -> Seq<u32> {
    if pressed.contains(button) {
        pressed
    } else {
        pressed.push(button)
    }
}

/// Keeping every code other than `button`.
pub open spec fn keeps_other(button: u32) -> spec_fn(u32) -> bool {
    |b: u32| b != button
}

/// The pressed-button set after a release: every occurrence of the code is
/// removed.
pub open spec fn spec_release(pressed: Seq<u32>, button: u32) -> Seq<u32> {
    pressed.filter(keeps_other(button))
}

/// Filtering a sequence without duplicates leaves no duplicates.
pub proof fn lemma_filter_no_duplicates<A>(s: Seq<A>, pred: spec_fn(A) -> bool)
    requires
        s.no_duplicates(),
    ensures
        s.filter(pred).no_duplicates(),
    decreases s.len(),
{
    reveal(Seq::filter);
    if s.len() != 0 {
        let rest = s.drop_last();
        assert(rest.no_duplicates());
        lemma_filter_no_duplicates(rest, pred);
        if pred(s.last()) {
            assert(!rest.contains(s.last()));
            assert(!rest.filter(pred).contains(s.last())) by {
                if rest.filter(pred).contains(s.last()) {
                    rest.lemma_filter_contains_rev(pred, s.last());
                }
            }
            assert(s.filter(pred) == rest.filter(pred).push(s.last()));
            assert(s.filter(pred).no_duplicates()) by {
                let f = rest.filter(pred);
                assert(forall|i: int, j: int|
                    0 <= i < j < f.push(s.last()).len() ==> f.push(s.last())[i] != f.push(
                        s.last(),
                    )[j]) by {
                    assert(forall|i: int| 0 <= i < f.len() ==> f[i] != s.last()) by {
                        assert(forall|i: int| 0 <= i < f.len() ==> f.contains(f[i]));
                    }
                }
            }
        }
    }
}

/// The pressed-button set after a button event.
pub open spec fn spec_pressed_after(pressed: Seq<u32>, event: ButtonEvent) -> Seq<u32> {
    match event.state {
        ButtonState::Pressed => spec_press(pressed, event.button),
        ButtonState::Released => spec_release(pressed, event.button),
    }
}

/// Installing a grab: the slot is overwritten unconditionally; under the
/// clear-focus policy a motion without focus target is synthesised at the
/// current location with the installing serial, forcing an immediate leave.
pub open spec fn spec_set_grab(s: StateView, serial: Serial, clear_focus: bool) -> (
    StateView,
    Seq<NotifyView>,
) {
    let s1 = StateView { grab: GrabView::Active(serial), ..s };
    if clear_focus {
        spec_motion(s1, None, MotionEvent { location: s.location, serial, time: 0 })
    } else {
        (s1, seq![])
    }
}

/// Removing the grab: the slot is reset, then the pending focus is replayed
/// as a fresh motion at the current location.
pub open spec fn spec_unset_grab(s: StateView, serial: Serial, time: u32) -> (
    StateView,
    Seq<NotifyView>,
) {
    let s1 = StateView { grab: GrabView::Idle, ..s };
    spec_motion(s1, s.pending_focus, MotionEvent { location: s.location, serial, time })
}

} // verus!
