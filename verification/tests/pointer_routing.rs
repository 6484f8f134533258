//! Routing behaviour: focus transitions, grab interception, pressed-button
//! tracking, and grab lifecycle, observed through a recording context.

use std::cell::Cell;
use std::rc::Rc;

use pointer_input::{
    Axis, AxisFrame, ButtonEvent, ButtonState, CursorImageStatus, DefaultGrab, Focus,
    GrabStartData, MotionEvent, Point, PointerGrab, PointerHandle, PointerInnerHandle,
    PointerTarget, RelativeMotionEvent, SeatHandler, Serial, TargetHandle, COORD_LIMIT,
};

#[derive(Debug, Clone, PartialEq)]
enum Note {
    Enter(u64, i64, i64),
    Motion(u64, i64, i64),
    Rel(u64, i64, i64),
    Button(u64, u32, bool),
    AxisN(u64, i64, i64),
    Leave(u64, u32),
    Cursor,
    Pressed(Vec<u32>),
    GrabMotion(i64, i64),
}

struct Ctx {
    notes: Vec<Note>,
}

impl Ctx {
    fn new() -> Ctx {
        Ctx { notes: Vec::new() }
    }
}

impl SeatHandler for Ctx {
    type PointerFocus = Target;

    fn cursor_image(&mut self, image: CursorImageStatus) {
        if image == CursorImageStatus::Default {
            self.notes.push(Note::Cursor);
        }
    }
}

struct Target {
    id: u64,
    alive: Rc<Cell<bool>>,
}

impl Target {
    fn new(id: u64) -> Target {
        Target { id, alive: Rc::new(Cell::new(true)) }
    }

    fn dup(&self) -> Target {
        Target { id: self.id, alive: self.alive.clone() }
    }
}

impl PointerTarget<Ctx> for Target {
    fn duplicate(&self) -> Self {
        self.dup()
    }

    fn alive(&self) -> bool {
        self.alive.get()
    }

    fn enter(&self, data: &mut Ctx, event: &MotionEvent) {
        data.notes.push(Note::Enter(self.id, event.location.x, event.location.y));
    }

    fn motion(&self, data: &mut Ctx, event: &MotionEvent) {
        data.notes.push(Note::Motion(self.id, event.location.x, event.location.y));
    }

    fn relative_motion(&self, data: &mut Ctx, event: &RelativeMotionEvent) {
        data.notes.push(Note::Rel(self.id, event.delta.x, event.delta.y));
    }

    fn button(&self, data: &mut Ctx, event: &ButtonEvent) {
        data.notes.push(Note::Button(self.id, event.button, event.state == ButtonState::Pressed));
    }

    fn axis(&self, data: &mut Ctx, frame: AxisFrame) {
        data.notes.push(Note::AxisN(self.id, frame.axis.0, frame.axis.1));
    }

    fn leave(&self, data: &mut Ctx, serial: Serial, _time: u32) {
        data.notes.push(Note::Leave(self.id, serial.0));
    }
}

#[derive(Clone, Copy, PartialEq)]
enum GrabAction {
    Swallow,
    UnsetOnButton,
    ReplaceOnMotion,
    Inspect,
}

struct TestGrab {
    start: GrabStartData<Ctx>,
    action: GrabAction,
}

impl TestGrab {
    fn new(action: GrabAction) -> TestGrab {
        TestGrab {
            start: GrabStartData { focus: None, location: Point { x: 0, y: 0 } },
            action,
        }
    }

    fn with_start(action: GrabAction, start: GrabStartData<Ctx>) -> TestGrab {
        TestGrab { start, action }
    }
}

impl PointerGrab<Ctx> for TestGrab {
    fn start_data(&self) -> &GrabStartData<Ctx> {
        &self.start
    }

    fn motion(
        &mut self,
        data: &mut Ctx,
        handle: &mut PointerInnerHandle<Ctx, Self>,
        focus: Option<(TargetHandle<Target>, Point)>,
        event: &MotionEvent,
    ) {
        match self.action {
            GrabAction::Swallow => {
                let _ = focus;
                data.notes.push(Note::GrabMotion(event.location.x, event.location.y));
            }
            GrabAction::UnsetOnButton => {
                handle.motion(data, focus, event);
            }
            GrabAction::ReplaceOnMotion => {
                handle.set_grab(data, Serial(99), Focus::Keep, TestGrab::new(GrabAction::Swallow));
            }
            GrabAction::Inspect => {
                let loc = handle.current_location();
                data.notes.push(Note::GrabMotion(loc.x, loc.y));
                data.notes.push(Note::Pressed(handle.current_pressed().clone()));
                if let Some((t, off)) = handle.current_focus() {
                    data.notes.push(Note::Motion(t.key, off.x, off.y));
                }
            }
        }
    }

    fn relative_motion(
        &mut self,
        data: &mut Ctx,
        handle: &mut PointerInnerHandle<Ctx, Self>,
        focus: Option<(TargetHandle<Target>, Point)>,
        event: &RelativeMotionEvent,
    ) {
        let _ = (data, handle, focus, event);
    }

    fn button(
        &mut self,
        data: &mut Ctx,
        handle: &mut PointerInnerHandle<Ctx, Self>,
        event: &ButtonEvent,
    ) {
        data.notes.push(Note::Pressed(handle.current_pressed().clone()));
        if self.action == GrabAction::UnsetOnButton {
            handle.unset_grab(data, event.serial, event.time);
        }
    }

    fn axis(
        &mut self,
        data: &mut Ctx,
        handle: &mut PointerInnerHandle<Ctx, Self>,
        details: AxisFrame,
    ) {
        let _ = (handle, details);
        data.notes.push(Note::GrabMotion(-1, -1));
    }
}

fn th(t: &Target) -> TargetHandle<Target> {
    TargetHandle { key: t.id, target: t.dup() }
}

fn mev(x: i64, y: i64, serial: u32, time: u32) -> MotionEvent {
    MotionEvent { location: Point { x, y }, serial: Serial(serial), time }
}

fn bev(button: u32, pressed: bool, serial: u32) -> ButtonEvent {
    ButtonEvent {
        serial: Serial(serial),
        time: 0,
        button,
        state: if pressed { ButtonState::Pressed } else { ButtonState::Released },
    }
}

fn handle() -> (PointerHandle<Ctx, TestGrab>, Ctx) {
    (PointerHandle::new(), Ctx::new())
}

#[test]
fn enter_motion_leave_scenario() {
    let (mut h, mut ctx) = handle();
    let a = Target::new(1);
    assert_eq!(h.current_location(), Point { x: 0, y: 0 });

    h.motion(&mut ctx, Some((th(&a), Point { x: 10, y: 10 })), &mev(15, 20, 1, 100));
    assert_eq!(ctx.notes, vec![Note::Cursor, Note::Enter(1, 5, 10)]);
    assert_eq!(h.current_location(), Point { x: 15, y: 20 });

    ctx.notes.clear();
    h.motion(&mut ctx, Some((th(&a), Point { x: 10, y: 10 })), &mev(17, 20, 2, 101));
    assert_eq!(ctx.notes, vec![Note::Motion(1, 7, 10)]);

    ctx.notes.clear();
    h.motion(&mut ctx, None, &mev(17, 20, 3, 102));
    assert_eq!(ctx.notes, vec![Note::Leave(1, 3), Note::Cursor]);
    assert!(h.current_focus().is_none());
}

#[test]
fn same_target_with_new_offset_stays_motion() {
    let (mut h, mut ctx) = handle();
    let a = Target::new(1);
    h.motion(&mut ctx, Some((th(&a), Point { x: 10, y: 10 })), &mev(15, 20, 1, 0));
    ctx.notes.clear();
    h.motion(&mut ctx, Some((th(&a), Point { x: 12, y: 14 })), &mev(15, 20, 2, 0));
    assert_eq!(ctx.notes, vec![Note::Motion(1, 3, 6)]);
}

#[test]
fn focus_change_leaves_before_entering() {
    let (mut h, mut ctx) = handle();
    let a = Target::new(1);
    let b = Target::new(2);
    h.motion(&mut ctx, Some((th(&a), Point { x: 0, y: 0 })), &mev(1, 1, 1, 0));
    ctx.notes.clear();
    h.motion(&mut ctx, Some((th(&b), Point { x: 0, y: 0 })), &mev(2, 2, 2, 0));
    assert_eq!(ctx.notes, vec![Note::Leave(1, 2), Note::Cursor, Note::Enter(2, 2, 2)]);
}

#[test]
fn enters_and_leaves_alternate_per_target() {
    let (mut h, mut ctx) = handle();
    let a = Target::new(1);
    let b = Target::new(2);
    let steps: Vec<Option<&Target>> = vec![Some(&a), Some(&b), Some(&a), None, Some(&a)];
    for (i, s) in steps.iter().enumerate() {
        let focus = s.map(|t| (th(t), Point { x: 0, y: 0 }));
        h.motion(&mut ctx, focus, &mev(i as i64, 0, i as u32, 0));
    }
    let a_events: Vec<&Note> = ctx
        .notes
        .iter()
        .filter(|n| matches!(n, Note::Enter(1, _, _) | Note::Leave(1, _)))
        .collect();
    let mut entered = false;
    for n in a_events {
        match n {
            Note::Enter(..) => {
                assert!(!entered, "enter while already entered");
                entered = true;
            }
            Note::Leave(..) => {
                assert!(entered, "leave while not entered");
                entered = false;
            }
            _ => unreachable!(),
        }
    }
    assert!(entered);
}

#[test]
fn motion_without_focus_resets_cursor() {
    let (mut h, mut ctx) = handle();
    h.motion(&mut ctx, None, &mev(5, 5, 1, 0));
    assert_eq!(ctx.notes, vec![Note::Cursor]);
}

#[test]
fn pressed_buttons_tracked_across_grab() {
    let (mut h, mut ctx) = handle();
    let a = Target::new(1);
    h.motion(&mut ctx, Some((th(&a), Point { x: 0, y: 0 })), &mev(0, 0, 1, 0));
    // Without a grab: buttons reach the focused target.
    h.button(&mut ctx, &bev(1, true, 2));
    h.button(&mut ctx, &bev(2, true, 3));
    assert!(ctx.notes.contains(&Note::Button(1, 1, true)));
    assert!(ctx.notes.contains(&Note::Button(1, 2, true)));
    // With an intercepting grab: the release never reaches the target, but
    // the pressed record is updated all the same.
    h.set_grab(&mut ctx, TestGrab::new(GrabAction::Swallow), Serial(10), Focus::Keep);
    ctx.notes.clear();
    h.button(&mut ctx, &bev(1, false, 4));
    assert_eq!(ctx.notes, vec![Note::Pressed(vec![2])]);
}

#[test]
fn grab_serial_is_tracked() {
    let (mut h, mut ctx) = handle();
    assert!(!h.is_grabbed());
    assert!(h.grab_start_data().is_none());
    h.set_grab(&mut ctx, TestGrab::new(GrabAction::Swallow), Serial(42), Focus::Keep);
    assert!(h.has_grab(Serial(42)));
    assert!(!h.has_grab(Serial(7)));
    assert!(h.is_grabbed());
    h.set_grab(&mut ctx, TestGrab::new(GrabAction::Swallow), Serial(43), Focus::Keep);
    assert!(!h.has_grab(Serial(42)));
    assert!(h.has_grab(Serial(43)));
    h.unset_grab(&mut ctx, Serial(44), 0);
    assert!(!h.is_grabbed());
    assert!(!h.has_grab(Serial(43)));
    assert!(!h.has_grab(Serial(44)));
}

#[test]
fn set_grab_with_clear_leaves_first() {
    let (mut h, mut ctx) = handle();
    let a = Target::new(1);
    h.motion(&mut ctx, Some((th(&a), Point { x: 0, y: 0 })), &mev(3, 4, 1, 0));
    ctx.notes.clear();
    h.set_grab(&mut ctx, TestGrab::new(GrabAction::Swallow), Serial(5), Focus::Clear);
    assert_eq!(ctx.notes, vec![Note::Leave(1, 5), Note::Cursor]);
    assert!(h.current_focus().is_none());
    // The grab's first event arrives only afterwards.
    h.motion(&mut ctx, None, &mev(6, 6, 6, 0));
    assert_eq!(ctx.notes.last(), Some(&Note::GrabMotion(6, 6)));
}

#[test]
fn set_grab_with_keep_does_not_leave() {
    let (mut h, mut ctx) = handle();
    let a = Target::new(1);
    h.motion(&mut ctx, Some((th(&a), Point { x: 0, y: 0 })), &mev(3, 4, 1, 0));
    ctx.notes.clear();
    h.set_grab(&mut ctx, TestGrab::new(GrabAction::Swallow), Serial(5), Focus::Keep);
    assert_eq!(ctx.notes, vec![]);
    assert!(h.current_focus().is_some());
}

#[test]
fn unset_grab_restores_pending_focus() {
    let (mut h, mut ctx) = handle();
    let a = Target::new(1);
    let b = Target::new(2);
    h.motion(&mut ctx, Some((th(&a), Point { x: 0, y: 0 })), &mev(1, 1, 1, 0));
    h.set_grab(&mut ctx, TestGrab::new(GrabAction::Swallow), Serial(2), Focus::Clear);
    // While grabbed, raw motion reports target b; the grab swallows it, so
    // no client-visible focus change happens.
    ctx.notes.clear();
    h.motion(&mut ctx, Some((th(&b), Point { x: 10, y: 0 })), &mev(12, 3, 3, 0));
    assert_eq!(ctx.notes, vec![Note::GrabMotion(12, 3)]);
    assert!(h.current_focus().is_none());
    // Ending the grab replays the pending focus at the current location,
    // which the swallowed motion never moved away from (1, 1).
    ctx.notes.clear();
    h.unset_grab(&mut ctx, Serial(4), 50);
    assert_eq!(ctx.notes, vec![Note::Cursor, Note::Enter(2, -9, 1)]);
    assert_eq!(h.current_focus().map(|t| t.key), Some(2));
}

#[test]
fn dead_start_focus_discards_grab() {
    let (mut h, mut ctx) = handle();
    let a = Target::new(1);
    let b = Target::new(2);
    let start = GrabStartData {
        focus: Some((th(&a), Point { x: 0, y: 0 })),
        location: Point { x: 0, y: 0 },
    };
    h.set_grab(
        &mut ctx,
        TestGrab::with_start(GrabAction::Swallow, start),
        Serial(1),
        Focus::Keep,
    );
    assert!(h.is_grabbed());
    a.alive.set(false);
    ctx.notes.clear();
    h.motion(&mut ctx, Some((th(&b), Point { x: 0, y: 0 })), &mev(5, 5, 2, 0));
    // The event got the pass-through behaviour, and the grab is gone.
    assert_eq!(ctx.notes, vec![Note::Cursor, Note::Enter(2, 5, 5)]);
    assert!(!h.is_grabbed());
}

#[test]
fn live_start_focus_keeps_grab() {
    let (mut h, mut ctx) = handle();
    let a = Target::new(1);
    let start = GrabStartData {
        focus: Some((th(&a), Point { x: 0, y: 0 })),
        location: Point { x: 0, y: 0 },
    };
    h.set_grab(
        &mut ctx,
        TestGrab::with_start(GrabAction::Swallow, start),
        Serial(1),
        Focus::Keep,
    );
    h.motion(&mut ctx, None, &mev(5, 5, 2, 0));
    assert!(h.is_grabbed());
    assert!(h.has_grab(Serial(1)));
}

#[test]
fn grab_can_unset_itself() {
    let (mut h, mut ctx) = handle();
    let a = Target::new(1);
    h.motion(&mut ctx, Some((th(&a), Point { x: 0, y: 0 })), &mev(1, 1, 1, 0));
    h.set_grab(&mut ctx, TestGrab::new(GrabAction::UnsetOnButton), Serial(2), Focus::Keep);
    h.button(&mut ctx, &bev(1, true, 3));
    assert!(!h.is_grabbed());
}

#[test]
fn grab_can_replace_itself() {
    let (mut h, mut ctx) = handle();
    h.set_grab(&mut ctx, TestGrab::new(GrabAction::ReplaceOnMotion), Serial(2), Focus::Keep);
    h.motion(&mut ctx, None, &mev(1, 1, 3, 0));
    assert!(h.has_grab(Serial(99)));
    assert!(!h.has_grab(Serial(2)));
}

#[test]
fn grab_start_data_is_returned() {
    let (mut h, mut ctx) = handle();
    let a = Target::new(7);
    let start = GrabStartData {
        focus: Some((th(&a), Point { x: 1, y: 2 })),
        location: Point { x: 3, y: 4 },
    };
    h.set_grab(&mut ctx, TestGrab::with_start(GrabAction::Swallow, start), Serial(1), Focus::Keep);
    let got = h.grab_start_data().expect("a grab is installed");
    assert_eq!(got.location, Point { x: 3, y: 4 });
    let (t, off) = got.focus.expect("start data recorded a focus");
    assert_eq!(t.key, 7);
    assert_eq!(t.target.id, 7);
    assert_eq!(off, Point { x: 1, y: 2 });
}

#[test]
fn relative_motion_reaches_focus_only() {
    let (mut h, mut ctx) = handle();
    let a = Target::new(1);
    let rel = RelativeMotionEvent {
        delta: Point { x: 3, y: -2 },
        delta_unaccel: Point { x: 4, y: -3 },
        utime: 1000,
    };
    // Unfocused: a no-op.
    h.relative_motion(&mut ctx, None, &rel);
    assert_eq!(ctx.notes, vec![]);
    h.motion(&mut ctx, Some((th(&a), Point { x: 0, y: 0 })), &mev(0, 0, 1, 0));
    ctx.notes.clear();
    h.relative_motion(&mut ctx, Some((th(&a), Point { x: 0, y: 0 })), &rel);
    assert_eq!(ctx.notes, vec![Note::Rel(1, 3, -2)]);
}

#[test]
fn axis_reaches_focus_and_grab() {
    let (mut h, mut ctx) = handle();
    let a = Target::new(1);
    // Unfocused: a no-op.
    h.axis(&mut ctx, AxisFrame::new(0).value(Axis::Horizontal, 30));
    assert_eq!(ctx.notes, vec![]);
    h.motion(&mut ctx, Some((th(&a), Point { x: 0, y: 0 })), &mev(0, 0, 1, 0));
    ctx.notes.clear();
    h.axis(&mut ctx, AxisFrame::new(0).value(Axis::Horizontal, 30).value(Axis::Vertical, -5));
    assert_eq!(ctx.notes, vec![Note::AxisN(1, 30, -5)]);
    h.set_grab(&mut ctx, TestGrab::new(GrabAction::Swallow), Serial(2), Focus::Keep);
    ctx.notes.clear();
    h.axis(&mut ctx, AxisFrame::new(0).value(Axis::Vertical, 9));
    assert_eq!(ctx.notes, vec![Note::GrabMotion(-1, -1)]);
}

#[test]
fn default_grab_passes_everything_through() {
    let mut h: PointerHandle<Ctx, DefaultGrab<Ctx>> = PointerHandle::new();
    let mut ctx = Ctx::new();
    let a = Target::new(1);
    h.set_grab(&mut ctx, DefaultGrab::new(), Serial(1), Focus::Keep);
    assert!(h.is_grabbed());
    h.motion(&mut ctx, Some((th(&a), Point { x: 10, y: 10 })), &mev(15, 20, 2, 0));
    assert_eq!(ctx.notes, vec![Note::Cursor, Note::Enter(1, 5, 10)]);
    ctx.notes.clear();
    h.button(&mut ctx, &bev(1, true, 3));
    assert_eq!(ctx.notes, vec![Note::Button(1, 1, true)]);
}

#[test]
fn mediator_reports_state_to_grab() {
    let (mut h, mut ctx) = handle();
    let a = Target::new(4);
    h.motion(&mut ctx, Some((th(&a), Point { x: 2, y: 3 })), &mev(8, 9, 1, 0));
    h.button(&mut ctx, &bev(5, true, 2));
    h.set_grab(&mut ctx, TestGrab::new(GrabAction::Inspect), Serial(3), Focus::Keep);
    ctx.notes.clear();
    h.motion(&mut ctx, Some((th(&a), Point { x: 2, y: 3 })), &mev(10, 11, 4, 0));
    // The grab read the location before its own dispatch updated anything:
    // motion updates location only through the transition the grab never
    // ran, so the mediator still reports the previous location.
    assert_eq!(
        ctx.notes,
        vec![
            Note::GrabMotion(8, 9),
            Note::Pressed(vec![5]),
            Note::Motion(4, 2, 3),
        ]
    );
}

#[test]
fn translation_at_coordinate_extremes() {
    let (mut h, mut ctx) = handle();
    let a = Target::new(1);
    h.motion(
        &mut ctx,
        Some((th(&a), Point { x: -COORD_LIMIT, y: -COORD_LIMIT })),
        &mev(COORD_LIMIT, COORD_LIMIT, 1, 0),
    );
    assert_eq!(
        ctx.notes,
        vec![Note::Cursor, Note::Enter(1, 2 * COORD_LIMIT, 2 * COORD_LIMIT)]
    );
    assert_eq!(h.current_location(), Point { x: COORD_LIMIT, y: COORD_LIMIT });
}

#[test]
fn double_press_is_recorded_once() {
    let (mut h, mut ctx) = handle();
    h.button(&mut ctx, &bev(1, true, 1));
    h.button(&mut ctx, &bev(1, true, 2));
    h.set_grab(&mut ctx, TestGrab::new(GrabAction::Swallow), Serial(3), Focus::Keep);
    ctx.notes.clear();
    // Releasing an unrelated code removes nothing.
    h.button(&mut ctx, &bev(99, false, 4));
    assert_eq!(ctx.notes, vec![Note::Pressed(vec![1])]);
    ctx.notes.clear();
    h.button(&mut ctx, &bev(1, false, 5));
    assert_eq!(ctx.notes, vec![Note::Pressed(vec![])]);
}
