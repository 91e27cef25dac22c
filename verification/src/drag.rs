//! The drag-gesture state machine.
//!
//! A controller turns raw pointer events plus the widget's bounds into a
//! stream of intents: `Begin` when a press inside the bounds opens a
//! gesture, `SetValue` for each position that is to be committed, and `End`
//! when a release or pointer loss closes the gesture. Once a drag is active,
//! moves outside the bounds are still honored: only the axis mapping clamps
//! the value, never the gesture.

use vstd::prelude::*;
use crate::geometry::{Bounds, MapMode, PointPx, spec_contains, spec_map_axis, map_axis};

verus! {

/// The persisted gesture state of a control: created inactive with the
/// widget, driven solely by pointer events.
#[derive(Clone, Copy, PartialEq, Eq, Structural, Debug)]
pub struct State {
    /// Whether a drag gesture is currently open.
    pub drag_active: bool,
}

impl Default for State {
    /// A fresh control starts with no open gesture.
    fn default() -> (r: State)
        ensures
            !r.drag_active,
    {
        State { drag_active: false }
    }
}

/// The phase of a raw pointer or touch event.
#[derive(Clone, Copy, PartialEq, Eq, Structural, Debug)]
pub enum PointerPhase {
    /// Primary button or finger went down.
    Pressed,
    /// The pointer moved.
    Moved,
    /// Primary button or finger was released.
    Released,
    /// The pointer was lost mid-gesture.
    Lost,
    /// Any event the controller does not react to.
    Other,
}

/// One raw pointer event: its phase and the pointer position, in pixels.
#[derive(Clone, Copy, PartialEq, Eq, Structural, Debug)]
pub struct PointerEvent {
    pub phase: PointerPhase,
    pub pos: PointPx,
}

/// One intent of the gesture protocol. `SetValue` carries the raw mapped
/// axis values in ticks; under the relative mapping they may leave the unit
/// range and are clamped at the parameter-write boundary.
#[derive(Clone, Copy, PartialEq, Eq, Structural, Debug)]
pub enum Intent {
    /// A gesture opened; group the writes that follow into one edit.
    Begin,
    /// Commit the mapped position of both axes.
    SetValue { rx: i64, ry: i64 },
    /// The gesture closed.
    End,
}

/// Whether the control consumed the event.
#[derive(Clone, Copy, PartialEq, Eq, Structural, Debug)]
pub enum EventStatus {
    Captured,
    Ignored,
}

/// When positions are committed: on every move of an open gesture, or once
/// from the closing event's position.
#[derive(Clone, Copy, PartialEq, Eq, Structural, Debug)]
pub enum CommitPolicy {
    /// A `SetValue` from the press and from every move.
    EveryMove,
    /// A single `SetValue` from the release (or pointer-loss) position.
    OnRelease,
}

/// The gesture state machine together with its two configured policies.
#[derive(Clone, Copy, PartialEq, Eq, Structural, Debug)]
pub struct DragController {
    /// Idle or dragging.
    pub state: State,
    /// How pointer positions map to axis values.
    pub mode: MapMode,
    /// When positions are committed.
    pub commit: CommitPolicy,
}

/// The `SetValue` intent for pointer position `p` within bounds `b`.
pub open spec fn spec_set_intent(mode: MapMode, b: Bounds, p: PointPx) -> Intent {
    Intent::SetValue {
        rx: spec_map_axis(mode, p.x as int, b.x as int, b.width as int) as i64,
        ry: spec_map_axis(mode, p.y as int, b.y as int, b.height as int) as i64,
    }
}

/// One transition of the state machine: the controller after the event, the
/// intents it emits, and whether it consumed the event.
pub open spec fn spec_step(c: DragController, ev: PointerEvent, b: Bounds) -> (
    DragController,
    Seq<Intent>,
    EventStatus,
) {
    match ev.phase {
        PointerPhase::Pressed => {
            if !c.state.drag_active && spec_contains(b, ev.pos) {
                let c2 = DragController {
                    state: State { drag_active: true },
                    mode: c.mode,
                    commit: c.commit,
                };
                let ints = if c.commit is EveryMove {
                    seq![Intent::Begin, spec_set_intent(c.mode, b, ev.pos)]
                } else {
                    seq![Intent::Begin]
                };
                (c2, ints, EventStatus::Captured)
            } else {
                (c, Seq::<Intent>::empty(), EventStatus::Ignored)
            }
        },
        PointerPhase::Moved => {
            if c.state.drag_active {
                let ints = if c.commit is EveryMove {
                    seq![spec_set_intent(c.mode, b, ev.pos)]
                } else {
                    Seq::<Intent>::empty()
                };
                (c, ints, EventStatus::Captured)
            } else {
                (c, Seq::<Intent>::empty(), EventStatus::Ignored)
            }
        },
        PointerPhase::Released | PointerPhase::Lost => {
            if c.state.drag_active {
                let c2 = DragController {
                    state: State { drag_active: false },
                    mode: c.mode,
                    commit: c.commit,
                };
                let ints = if c.commit is OnRelease {
                    seq![spec_set_intent(c.mode, b, ev.pos), Intent::End]
                } else {
                    seq![Intent::End]
                };
                (c2, ints, EventStatus::Captured)
            } else {
                (c, Seq::<Intent>::empty(), EventStatus::Ignored)
            }
        },
        PointerPhase::Other => (c, Seq::<Intent>::empty(), EventStatus::Ignored),
    }
}

impl DragController {
    /// A controller with the given policies and no open gesture.
    pub fn new(mode: MapMode, commit: CommitPolicy) -> (c: DragController)
        ensures
            !c.state.drag_active,
            c.mode == mode,
            c.commit == commit,
    {
        DragController { state: State { drag_active: false }, mode, commit }
    }

    /// Feed one pointer event through the state machine, collecting the
    /// emitted intents.
    pub fn handle_event(&mut self, ev: &PointerEvent, b: &Bounds) -> (r: (Vec<Intent>, EventStatus))
        ensures
            *final(self) == spec_step(*old(self), *ev, *b).0,
            r.0@ == spec_step(*old(self), *ev, *b).1,
            r.1 == spec_step(*old(self), *ev, *b).2,
    {
        let ghost pre = *self;
        let mut out: Vec<Intent> = Vec::new();
        let status: EventStatus = match ev.phase {
            PointerPhase::Pressed => {
                if !self.state.drag_active && b.contains(&ev.pos) {
                    self.state.drag_active = true;
                    out.push(Intent::Begin);
                    if self.commit == CommitPolicy::EveryMove {
                        let i = set_intent(self.mode, b, &ev.pos);
                        out.push(i);
                    }
                    EventStatus::Captured
                } else {
                    EventStatus::Ignored
                }
            },
            PointerPhase::Moved => {
                if self.state.drag_active {
                    if self.commit == CommitPolicy::EveryMove {
                        let i = set_intent(self.mode, b, &ev.pos);
                        out.push(i);
                    }
                    EventStatus::Captured
                } else {
                    EventStatus::Ignored
                }
            },
            PointerPhase::Released | PointerPhase::Lost => {
                if self.state.drag_active {
                    self.state.drag_active = false;
                    if self.commit == CommitPolicy::OnRelease {
                        let i = set_intent(self.mode, b, &ev.pos);
                        out.push(i);
                    }
                    out.push(Intent::End);
                    EventStatus::Captured
                } else {
                    EventStatus::Ignored
                }
            },
            PointerPhase::Other => EventStatus::Ignored,
        };
        proof {
            assert(out@ =~= spec_step(pre, *ev, *b).1);
        }
        (out, status)
    }
}

/// Compute the `SetValue` intent for pointer position `p` within bounds `b`.
fn set_intent(mode: MapMode, b: &Bounds, p: &PointPx) -> (i: Intent)
    ensures
        i == spec_set_intent(mode, *b, *p),
{
    let rx: i64 = map_axis(mode, p.x, b.x, b.width);
    let ry: i64 = map_axis(mode, p.y, b.y, b.height);
    Intent::SetValue { rx, ry }
}

/// Scan an intent stream with the gesture automaton. `active` says whether a
/// gesture is open before the stream; the result is the open state after it,
/// or `None` if the stream is ill-formed: a `Begin` inside an open gesture,
/// or a `SetValue` or `End` outside one.
pub open spec fn spec_intents_wf(ints: Seq<Intent>, active: bool) -> Option<bool>
    decreases ints.len(),
{
    if ints.len() == 0 {
        Some(active)
    } else {
        let legal = match ints[0] {
            Intent::Begin => !active,
            Intent::SetValue { .. } => active,
            Intent::End => active,
        };
        let next = match ints[0] {
            Intent::Begin => true,
            Intent::SetValue { .. } => active,
            Intent::End => false,
        };
        if legal {
            spec_intents_wf(ints.subrange(1, ints.len() as int), next)
        } else {
            None
        }
    }
}

/// A well-formed prefix scans on: scanning `a + b2` from `active` is
/// scanning `b2` from where `a` left off.
proof fn lemma_intents_wf_concat(a: Seq<Intent>, b2: Seq<Intent>, active: bool, mid: bool)
    requires
        spec_intents_wf(a, active) == Some(mid),
    ensures
        spec_intents_wf(a + b2, active) == spec_intents_wf(b2, mid),
    decreases a.len(),
{
    if a.len() == 0 {
        assert(a + b2 =~= b2);
    } else {
        let next = match a[0] {
            Intent::Begin => true,
            Intent::SetValue { .. } => active,
            Intent::End => false,
        };
        assert((a + b2)[0] == a[0]);
        assert((a + b2).subrange(1, (a + b2).len() as int) =~= a.subrange(1, a.len() as int) + b2);
        lemma_intents_wf_concat(a.subrange(1, a.len() as int), b2, next, mid);
    }
}

/// Every single transition emits a batch the automaton accepts, and leaves
/// the automaton open exactly when the controller is dragging.
proof fn lemma_step_intents_wf(c: DragController, ev: PointerEvent, b: Bounds)
    ensures
        spec_intents_wf(spec_step(c, ev, b).1, c.state.drag_active) == Some(
            spec_step(c, ev, b).0.state.drag_active,
        ),
{
    reveal_with_fuel(spec_intents_wf, 3);
    let ints = spec_step(c, ev, b).1;
    if ints.len() == 1 {
        assert(ints.subrange(1, 1) =~= Seq::<Intent>::empty());
    } else if ints.len() == 2 {
        assert(ints.subrange(1, 2).subrange(1, 1) =~= Seq::<Intent>::empty());
        assert(ints.subrange(1, 2)[0] == ints[1]);
    }
}

/// The controller folded over a whole event sequence: the final controller
/// and the concatenation of all emitted intents.
pub open spec fn spec_run(c: DragController, evs: Seq<PointerEvent>, b: Bounds) -> (
    DragController,
    Seq<Intent>,
)
    decreases evs.len(),
{
    if evs.len() == 0 {
        (c, Seq::<Intent>::empty())
    } else {
        let step = spec_step(c, evs[0], b);
        let rest = spec_run(step.0, evs.subrange(1, evs.len() as int), b);
        (rest.0, step.1 + rest.1)
    }
}

/// From any starting state, the intents of a whole run scan to the final
/// drag state.
proof fn lemma_run_intents_wf(c: DragController, evs: Seq<PointerEvent>, b: Bounds)
    ensures
        spec_intents_wf(spec_run(c, evs, b).1, c.state.drag_active) == Some(
            spec_run(c, evs, b).0.state.drag_active,
        ),
    decreases evs.len(),
{
    if evs.len() == 0 {
    } else {
        let step = spec_step(c, evs[0], b);
        let rest = spec_run(step.0, evs.subrange(1, evs.len() as int), b);
        lemma_step_intents_wf(c, evs[0], b);
        lemma_run_intents_wf(step.0, evs.subrange(1, evs.len() as int), b);
        lemma_intents_wf_concat(step.1, rest.1, c.state.drag_active, step.0.state.drag_active);
    }
}

/// Gesture well-formedness: feeding any sequence of pointer events to an
/// idle controller yields an intent stream the gesture automaton accepts
/// from the closed state — every gesture is opened by exactly one `Begin`,
/// closed by exactly one `End`, no `SetValue` falls outside an open gesture,
/// and a gesture is left open at the end exactly when the controller is
/// still dragging.
pub proof fn lemma_gesture_well_formed(c: DragController, evs: Seq<PointerEvent>, b: Bounds)
    requires
        !c.state.drag_active,
    ensures
        spec_intents_wf(spec_run(c, evs, b).1, false) == Some(
            spec_run(c, evs, b).0.state.drag_active,
        ),
{
    lemma_run_intents_wf(c, evs, b);
}

} // verus!
