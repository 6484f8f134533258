//! The guarantees the routing core gives across whole runs, stated over the
//! model in [`crate::model`] and proved once and for all: how enter and
//! leave notifications alternate, what a motion within one target emits,
//! what installing or removing a grab does to focus and to the grab slot.

use vstd::prelude::*;
use crate::events::{MotionEvent, Serial};
use crate::geometry::Point;
use crate::model::{entered_state, spec_motion, spec_set_grab, spec_unset_grab, GrabView,
    NotifyView, StateView};

verus! {

/// The state and the concatenated notifications after a sequence of motion
/// notifications, each given as the new focus and the event.
pub open spec fn run_motions(s: StateView, inputs: Seq<(Option<(int, Point)>, MotionEvent)>) -> (
    StateView,
    Seq<NotifyView>,
)
    decreases inputs.len(),
{
    if inputs.len() == 0 {
        (s, seq![])
    } else {
        let step = spec_motion(s, inputs.first().0, inputs.first().1);
        let rest = run_motions(step.0, inputs.drop_first());
        (rest.0, step.1 + rest.1)
    }
}

/// Whether a notification is an enter of target `t`.
pub open spec fn is_enter(n: NotifyView, t: int) -> bool {
    n matches NotifyView::Enter { target, .. } && target == t
}

/// Whether a notification is a leave of target `t`.
pub open spec fn is_leave(n: NotifyView, t: int) -> bool {
    n matches NotifyView::Leave { target, .. } && target == t
}

/// The subsequence of enter and leave notifications of target `t`.
pub open spec fn enter_leave_proj(log: Seq<NotifyView>, t: int) -> Seq<NotifyView>
    decreases log.len(),
{
    if log.len() == 0 {
        seq![]
    } else {
        let rest = enter_leave_proj(log.drop_first(), t);
        if is_enter(log.first(), t) || is_leave(log.first(), t) {
            seq![log.first()] + rest
        } else {
            rest
        }
    }
}

/// Strict alternation: seen from a state where `t` is entered iff
/// `entered`, the projected sequence is a leave exactly when `t` is
/// entered and an enter exactly when it is not, each flipping the state.
pub open spec fn alternates_from(p: Seq<NotifyView>, t: int, entered: bool) -> bool
    decreases p.len(),
{
    if p.len() == 0 {
        true
    } else if entered {
        is_leave(p.first(), t) && alternates_from(p.drop_first(), t, false)
    } else {
        is_enter(p.first(), t) && alternates_from(p.drop_first(), t, true)
    }
}

/// The entered-state after a strictly alternating projection: each element
/// flips it.
pub open spec fn after_alt(p: Seq<NotifyView>, entered: bool) -> bool
    decreases p.len(),
{
    if p.len() == 0 {
        entered
    } else {
        after_alt(p.drop_first(), !entered)
    }
}

/// Projection distributes over concatenation.
proof fn lemma_proj_concat(a: Seq<NotifyView>, b: Seq<NotifyView>, t: int)
    ensures
        enter_leave_proj(a + b, t) == enter_leave_proj(a, t) + enter_leave_proj(b, t),
    decreases a.len(),
{
    if a.len() == 0 {
        assert(a + b =~= b);
        assert(enter_leave_proj(a, t) =~= seq![]);
        assert(enter_leave_proj(a, t) + enter_leave_proj(b, t) =~= enter_leave_proj(b, t));
    } else {
        lemma_proj_concat(a.drop_first(), b, t);
        assert((a + b).drop_first() =~= a.drop_first() + b);
        assert((a + b).first() == a.first());
        if is_enter(a.first(), t) || is_leave(a.first(), t) {
            assert(seq![a.first()] + (enter_leave_proj(a.drop_first(), t) + enter_leave_proj(
                b,
                t,
            )) =~= (seq![a.first()] + enter_leave_proj(a.drop_first(), t)) + enter_leave_proj(
                b,
                t,
            ));
        }
    }
}

/// Two strictly alternating stretches concatenate into one when the second
/// starts where the first ends.
proof fn lemma_alternates_concat(a: Seq<NotifyView>, b: Seq<NotifyView>, t: int, entered: bool)
    requires
        alternates_from(a, t, entered),
        alternates_from(b, t, after_alt(a, entered)),
    ensures
        alternates_from(a + b, t, entered),
    decreases a.len(),
{
    if a.len() == 0 {
        assert(a + b =~= b);
    } else {
        lemma_alternates_concat(a.drop_first(), b, t, !entered);
        assert((a + b).drop_first() =~= a.drop_first() + b);
        assert((a + b).first() == a.first());
    }
}

/// One motion notification keeps the alternation of target `t`: its
/// projected notifications alternate from the entered-state the old focus
/// gives, and end in the entered-state the new focus gives.
pub proof fn lemma_motion_step_alternation(
    s: StateView,
    f: Option<(int, Point)>,
    e: MotionEvent,
    t: int,
)
    ensures
        alternates_from(
            enter_leave_proj(spec_motion(s, f, e).1, t),
            t,
            entered_state(s, t),
        ),
        after_alt(enter_leave_proj(spec_motion(s, f, e).1, t), entered_state(s, t))
            == entered_state(spec_motion(s, f, e).0, t),
{
    reveal_with_fuel(enter_leave_proj, 5);
    reveal_with_fuel(alternates_from, 3);
    reveal_with_fuel(after_alt, 3);
    let log = spec_motion(s, f, e).1;
    let leave = !crate::model::same_focus_target(s.focus, f);
    if !leave {
        // Same target kept: a single motion notification, invisible to the
        // projection.
        assert(log.len() == 1);
        assert(log.drop_first() =~= seq![]);
    } else {
        match (s.focus, f) {
            (Some((u, _)), Some((v, off))) => {
                let ev = MotionEvent {
                    location: e.location.spec_minus(off),
                    serial: e.serial,
                    time: e.time,
                };
                assert(log =~= seq![
                    NotifyView::Leave { target: u, serial: e.serial, time: e.time },
                    NotifyView::CursorDefault,
                    NotifyView::Enter { target: v, event: ev },
                ]);
                assert(log.drop_first() =~= seq![
                    NotifyView::CursorDefault,
                    NotifyView::Enter { target: v, event: ev },
                ]);
                assert(log.drop_first().drop_first() =~= seq![
                    NotifyView::Enter { target: v, event: ev },
                ]);
                assert(log.drop_first().drop_first().drop_first() =~= seq![]);
                let p = enter_leave_proj(log, t);
                if t == u {
                    assert(p =~= seq![
                        NotifyView::Leave { target: u, serial: e.serial, time: e.time },
                    ]);
                } else if t == v {
                    assert(p =~= seq![NotifyView::Enter { target: v, event: ev }]);
                } else {
                    assert(p =~= seq![]);
                }
            },
            (Some((u, _)), None) => {
                assert(log =~= seq![
                    NotifyView::Leave { target: u, serial: e.serial, time: e.time },
                    NotifyView::CursorDefault,
                ]);
                assert(log.drop_first() =~= seq![NotifyView::CursorDefault]);
                assert(log.drop_first().drop_first() =~= seq![]);
                let p = enter_leave_proj(log, t);
                if t == u {
                    assert(p =~= seq![
                        NotifyView::Leave { target: u, serial: e.serial, time: e.time },
                    ]);
                } else {
                    assert(p =~= seq![]);
                }
            },
            (None, Some((v, off))) => {
                let ev = MotionEvent {
                    location: e.location.spec_minus(off),
                    serial: e.serial,
                    time: e.time,
                };
                assert(log =~= seq![
                    NotifyView::CursorDefault,
                    NotifyView::Enter { target: v, event: ev },
                ]);
                assert(log.drop_first() =~= seq![NotifyView::Enter { target: v, event: ev }]);
                assert(log.drop_first().drop_first() =~= seq![]);
                let p = enter_leave_proj(log, t);
                if t == v {
                    assert(p =~= seq![NotifyView::Enter { target: v, event: ev }]);
                } else {
                    assert(p =~= seq![]);
                }
            },
            (None, None) => {
                assert(log =~= seq![NotifyView::CursorDefault]);
                assert(log.drop_first() =~= seq![]);
                assert(enter_leave_proj(log, t) =~= seq![]);
            },
        }
    }
}

/// Over any sequence of motion notifications, from any starting state, the
/// enter and leave notifications of any one target strictly alternate,
/// starting with a leave if the target was focused and an enter otherwise:
/// a target receives exactly one enter between any two of its leaves,
/// never a second enter without an intervening leave, and never an enter
/// after a displacing motion without its leave having been delivered
/// first.
pub proof fn lemma_enter_leave_alternation(
    s: StateView,
    inputs: Seq<(Option<(int, Point)>, MotionEvent)>,
    t: int,
)
    ensures
        alternates_from(
            enter_leave_proj(run_motions(s, inputs).1, t),
            t,
            entered_state(s, t),
        ),
    decreases inputs.len(),
{
    if inputs.len() == 0 {
        reveal_with_fuel(enter_leave_proj, 1);
        reveal_with_fuel(alternates_from, 1);
    } else {
        let step = spec_motion(s, inputs.first().0, inputs.first().1);
        let rest = run_motions(step.0, inputs.drop_first());
        lemma_motion_step_alternation(s, inputs.first().0, inputs.first().1, t);
        lemma_enter_leave_alternation(step.0, inputs.drop_first(), t);
        lemma_proj_concat(step.1, rest.1, t);
        lemma_alternates_concat(
            enter_leave_proj(step.1, t),
            enter_leave_proj(rest.1, t),
            t,
            entered_state(s, t),
        );
    }
}

/// A motion that keeps the focus target (by identity) emits exactly one
/// notification, a motion of that target with the freshly translated
/// location: no leave, no enter, even when the reported offset changes.
pub proof fn lemma_same_target_motion_only(
    s: StateView,
    t: int,
    off: Point,
    e: MotionEvent,
)
    requires
        s.focus matches Some((c, _)) && c == t,
    ensures
        spec_motion(s, Some((t, off)), e).1 == seq![
            NotifyView::Motion {
                target: t,
                event: MotionEvent {
                    location: e.location.spec_minus(off),
                    serial: e.serial,
                    time: e.time,
                },
            },
        ],
        spec_motion(s, Some((t, off)), e).0.focus == Some((t, off)),
{
    assert(spec_motion(s, Some((t, off)), e).1 =~= seq![
        NotifyView::Motion {
            target: t,
            event: MotionEvent {
                location: e.location.spec_minus(off),
                serial: e.serial,
                time: e.time,
            },
        },
    ]);
}

/// Removing a grab restores exactly the pending focus captured by the
/// latest raw motion, and idles the grab slot.
pub proof fn lemma_unset_grab_restores_pending(s: StateView, serial: Serial, time: u32)
    ensures
        spec_unset_grab(s, serial, time).0.focus == s.pending_focus,
        spec_unset_grab(s, serial, time).0.pending_focus == s.pending_focus,
        spec_unset_grab(s, serial, time).0.grab == GrabView::Idle,
{
}

/// Installing a grab under the clear-focus policy leaves whatever was
/// focused before anything else: the leave of the old target is the first
/// notification emitted, focus ends cleared, and the grab ends installed
/// with the given serial — so the grab sees no event before that leave,
/// whatever the grab is.
pub proof fn lemma_set_grab_clear_leaves(s: StateView, serial: Serial, t: int, off: Point)
    requires
        s.focus == Some((t, off)),
    ensures
        spec_set_grab(s, serial, true).1.len() > 0,
        spec_set_grab(s, serial, true).1.first() == (NotifyView::Leave {
            target: t,
            serial,
            time: 0,
        }),
        spec_set_grab(s, serial, true).0.focus is None,
        spec_set_grab(s, serial, true).0.grab == GrabView::Active(serial),
{
}

/// The grab slot records exactly the serial of the latest installation:
/// right after installing with one serial the pointer is grabbed with that
/// serial and no other, any later installation replaces it whatever serial
/// it uses, and removing the grab idles the slot whatever serial that call
/// uses.
pub proof fn lemma_grab_serial_tracking(
    s: StateView,
    serial: Serial,
    clear: bool,
    serial2: Serial,
    clear2: bool,
    time: u32,
)
    ensures
        spec_set_grab(s, serial, clear).0.grab == GrabView::Active(serial),
        spec_set_grab(spec_set_grab(s, serial, clear).0, serial2, clear2).0.grab
            == GrabView::Active(serial2),
        spec_unset_grab(spec_set_grab(s, serial, clear).0, serial2, time).0.grab
            == GrabView::Idle,
{
}

} // verus!
