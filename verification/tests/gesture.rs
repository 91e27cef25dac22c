use xygrid::drag::{
    CommitPolicy, DragController, EventStatus, Intent, PointerEvent, PointerPhase, State,
};
use xygrid::geometry::{Bounds, MapMode, PointPx};
use xygrid::param::{ParamHandle, ParamRange, RangeKind};
use xygrid::widget::{ParamMessage, XyInput};

fn bounds100() -> Bounds {
    Bounds {
        x: 0,
        y: 0,
        width: 100,
        height: 100,
    }
}

fn ev(phase: PointerPhase, x: i32, y: i32) -> PointerEvent {
    PointerEvent {
        phase,
        pos: PointPx { x, y },
    }
}

fn bipolar_handle(id: u32, current_plain: i64) -> ParamHandle {
    ParamHandle {
        id,
        range: ParamRange::bipolar(),
        current_plain,
    }
}

fn stepped_handle(id: u32, current_plain: i64) -> ParamHandle {
    ParamHandle {
        id,
        range: ParamRange {
            min: 0,
            max: 1,
            kind: RangeKind::Stepped,
        },
        current_plain,
    }
}

#[test]
fn fresh_state_is_idle() {
    let s: State = Default::default();
    assert!(!s.drag_active);
}

#[test]
fn controller_emits_begin_set_end_once_per_press_release() {
    let b = bounds100();
    let mut c = DragController::new(MapMode::Absolute, CommitPolicy::EveryMove);

    let (ints, st) = c.handle_event(&ev(PointerPhase::Pressed, 25, 75), &b);
    assert_eq!(st, EventStatus::Captured);
    assert_eq!(
        ints,
        vec![
            Intent::Begin,
            Intent::SetValue {
                rx: 250_000,
                ry: 750_000
            }
        ]
    );
    assert!(c.state.drag_active);

    let (ints, st) = c.handle_event(&ev(PointerPhase::Moved, 50, 50), &b);
    assert_eq!(st, EventStatus::Captured);
    assert_eq!(
        ints,
        vec![Intent::SetValue {
            rx: 500_000,
            ry: 500_000
        }]
    );

    let (ints, st) = c.handle_event(&ev(PointerPhase::Released, 50, 50), &b);
    assert_eq!(st, EventStatus::Captured);
    assert_eq!(ints, vec![Intent::End]);
    assert!(!c.state.drag_active);

    // A release without an open gesture is ignored.
    let (ints, st) = c.handle_event(&ev(PointerPhase::Released, 50, 50), &b);
    assert_eq!(st, EventStatus::Ignored);
    assert!(ints.is_empty());
}

#[test]
fn press_outside_bounds_is_ignored() {
    let b = bounds100();
    let mut c = DragController::new(MapMode::Absolute, CommitPolicy::EveryMove);
    let (ints, st) = c.handle_event(&ev(PointerPhase::Pressed, 150, 50), &b);
    assert_eq!(st, EventStatus::Ignored);
    assert!(ints.is_empty());
    assert!(!c.state.drag_active);
}

#[test]
fn moves_outside_bounds_are_honored_during_a_drag() {
    let b = bounds100();
    let mut c = DragController::new(MapMode::Absolute, CommitPolicy::EveryMove);
    c.handle_event(&ev(PointerPhase::Pressed, 50, 50), &b);
    let (ints, st) = c.handle_event(&ev(PointerPhase::Moved, 250, -40), &b);
    assert_eq!(st, EventStatus::Captured);
    // The mapping clamps the value; the gesture itself is not clamped.
    assert_eq!(
        ints,
        vec![Intent::SetValue {
            rx: 1_000_000,
            ry: 0
        }]
    );
    assert!(c.state.drag_active);
}

#[test]
fn move_without_drag_is_ignored_and_other_events_do_nothing() {
    let b = bounds100();
    let mut c = DragController::new(MapMode::Absolute, CommitPolicy::EveryMove);
    let (ints, st) = c.handle_event(&ev(PointerPhase::Moved, 10, 10), &b);
    assert_eq!(st, EventStatus::Ignored);
    assert!(ints.is_empty());
    let (ints, st) = c.handle_event(&ev(PointerPhase::Other, 10, 10), &b);
    assert_eq!(st, EventStatus::Ignored);
    assert!(ints.is_empty());
    assert!(!c.state.drag_active);
}

#[test]
fn pointer_lost_closes_the_gesture() {
    let b = bounds100();
    let mut c = DragController::new(MapMode::Absolute, CommitPolicy::EveryMove);
    c.handle_event(&ev(PointerPhase::Pressed, 50, 50), &b);
    let (ints, _) = c.handle_event(&ev(PointerPhase::Lost, 60, 60), &b);
    assert_eq!(ints, vec![Intent::End]);
    assert!(!c.state.drag_active);
}

#[test]
fn on_release_policy_commits_once_at_the_end() {
    let b = bounds100();
    let mut c = DragController::new(MapMode::Absolute, CommitPolicy::OnRelease);

    let (ints, _) = c.handle_event(&ev(PointerPhase::Pressed, 25, 75), &b);
    assert_eq!(ints, vec![Intent::Begin]);

    let (ints, st) = c.handle_event(&ev(PointerPhase::Moved, 40, 40), &b);
    assert_eq!(st, EventStatus::Captured);
    assert!(ints.is_empty());

    let (ints, _) = c.handle_event(&ev(PointerPhase::Released, 60, 80), &b);
    assert_eq!(
        ints,
        vec![
            Intent::SetValue {
                rx: 600_000,
                ry: 800_000
            },
            Intent::End
        ]
    );
}

#[test]
fn absolute_press_drag_release_scenario() {
    // bounds {0,0,100,100}; press at (25,75) => normalized (0.25, 0.75) =>
    // Begin(X), Begin(Y), SetValue(0.25, 0.75); drag to (50,50) =>
    // SetValue(0.5, 0.5); release => End(X), End(Y).
    let b = bounds100();
    let mut w = XyInput::new(
        Default::default(),
        bipolar_handle(1, 999_999),
        bipolar_handle(2, 999_999),
    );
    let mut out: Vec<ParamMessage> = Vec::new();

    let st = w.on_event(&ev(PointerPhase::Pressed, 25, 75), &b, &mut out);
    assert_eq!(st, EventStatus::Captured);
    assert_eq!(
        out,
        vec![
            ParamMessage::BeginSetParameter(1),
            ParamMessage::BeginSetParameter(2),
            ParamMessage::SetParameterNormalized(1, 250_000),
            ParamMessage::SetParameterNormalized(2, 750_000),
        ]
    );

    out.clear();
    let st = w.on_event(&ev(PointerPhase::Moved, 50, 50), &b, &mut out);
    assert_eq!(st, EventStatus::Captured);
    assert_eq!(
        out,
        vec![
            ParamMessage::SetParameterNormalized(1, 500_000),
            ParamMessage::SetParameterNormalized(2, 500_000),
        ]
    );

    out.clear();
    let st = w.on_event(&ev(PointerPhase::Released, 50, 50), &b, &mut out);
    assert_eq!(st, EventStatus::Captured);
    assert_eq!(
        out,
        vec![
            ParamMessage::EndSetParameter(1),
            ParamMessage::EndSetParameter(2),
        ]
    );
}

#[test]
fn stepped_drag_within_one_step_suppresses_writes() {
    // Two-step parameters on both axes: writes landing on the step the
    // parameters already hold publish nothing.
    let b = bounds100();
    let mut w = XyInput::new(
        Default::default(),
        stepped_handle(1, 999),
        stepped_handle(2, 999),
    );
    let mut out: Vec<ParamMessage> = Vec::new();

    // Press at (10,10): both axes preview to step 0, which differs from the
    // parameters' current plain value, so the first write goes out.
    w.on_event(&ev(PointerPhase::Pressed, 10, 10), &b, &mut out);
    assert_eq!(
        out,
        vec![
            ParamMessage::BeginSetParameter(1),
            ParamMessage::BeginSetParameter(2),
            ParamMessage::SetParameterNormalized(1, 100_000),
            ParamMessage::SetParameterNormalized(2, 100_000),
        ]
    );

    // The host applies the snapped writes: both parameters now hold step 0.
    w.x_param.current_plain = 0;
    w.y_param.current_plain = 0;

    // Dragging within the region that still maps to step 0 publishes nothing.
    out.clear();
    let st = w.on_event(&ev(PointerPhase::Moved, 30, 30), &b, &mut out);
    assert_eq!(st, EventStatus::Captured);
    assert!(out.is_empty());

    out.clear();
    w.on_event(&ev(PointerPhase::Moved, 49, 20), &b, &mut out);
    assert!(out.is_empty());

    // Crossing into the other step's region publishes again.
    out.clear();
    w.on_event(&ev(PointerPhase::Moved, 70, 70), &b, &mut out);
    assert_eq!(
        out,
        vec![
            ParamMessage::SetParameterNormalized(1, 700_000),
            ParamMessage::SetParameterNormalized(2, 700_000),
        ]
    );
}

#[test]
fn relative_mode_clamps_only_at_the_write_boundary() {
    let b = bounds100();
    let mut w = XyInput::new(
        Default::default(),
        bipolar_handle(1, 999_999),
        bipolar_handle(2, 999_999),
    )
    .map_mode(MapMode::RelativeFromCenter);
    let mut out: Vec<ParamMessage> = Vec::new();

    // (75,25) is right of and above the center: raw (+0.5, -0.5); the
    // negative axis clamps to 0 when the write is built.
    w.on_event(&ev(PointerPhase::Pressed, 75, 25), &b, &mut out);
    assert_eq!(
        out,
        vec![
            ParamMessage::BeginSetParameter(1),
            ParamMessage::BeginSetParameter(2),
            ParamMessage::SetParameterNormalized(1, 500_000),
            ParamMessage::SetParameterNormalized(2, 0),
        ]
    );
}

#[test]
fn builders_set_size_and_policies() {
    let w = XyInput::new(
        Default::default(),
        bipolar_handle(1, 0),
        bipolar_handle(2, 0),
    );
    assert_eq!(w.width, 100);
    assert_eq!(w.height, 100);
    let w = w
        .width(320)
        .height(200)
        .map_mode(MapMode::RelativeFromCenter)
        .commit_policy(CommitPolicy::OnRelease);
    assert_eq!(w.width, 320);
    assert_eq!(w.height, 200);
    assert_eq!(w.drag.mode, MapMode::RelativeFromCenter);
    assert_eq!(w.drag.commit, CommitPolicy::OnRelease);
}

#[test]
fn render_places_the_marker_at_the_mapped_position() {
    let b = bounds100();
    let w = XyInput::new(
        Default::default(),
        bipolar_handle(1, 0),
        bipolar_handle(2, 0),
    );
    let d = w.render(&b, 250_000, 750_000);
    assert_eq!(d.frame.x, 0);
    assert_eq!(d.frame.y, 0);
    assert_eq!(d.frame.width, 100);
    assert_eq!(d.frame.height, 100);
    assert_eq!(d.marker.x, 25);
    assert_eq!(d.marker.y, 75);
    assert_eq!(d.marker.width, 10);
    assert_eq!(d.marker.height, 10);
}
