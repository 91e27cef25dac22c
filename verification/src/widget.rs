//! The XY control: geometry, a drag controller and two parameter handles,
//! composed into the transactional begin/set/end write protocol.
//!
//! Every gesture intent becomes host-facing messages: a `Begin` and an `End`
//! notify the host for both parameters, and a `SetValue` writes both
//! normalized axis values together — unless neither write would change its
//! parameter's plain value, in which case the pair of writes is suppressed
//! entirely.

use vstd::prelude::*;
use crate::drag::{CommitPolicy, DragController, EventStatus, Intent, PointerEvent, State, spec_step};
use crate::geometry::{Bounds, DrawDescription, MapMode, Quad, Rgb};
use crate::param::{ParamHandle, spec_preview_plain, preview_plain};
use crate::units::{NORM_ONE, clamped, clamp_normalized, is_normalized};

verus! {

/// Side length of the marker rectangle, in pixels.
pub const MARKER_SIZE: u32 = 10;

/// Border width of the frame rectangle, in pixels.
pub const FRAME_BORDER_WIDTH: u32 = 5;

/// Corner radius of the frame rectangle, in pixels.
pub const FRAME_BORDER_RADIUS: u32 = 10;

/// Border width of the marker rectangle, in pixels.
pub const MARKER_BORDER_WIDTH: u32 = 5;

/// Corner radius of the marker rectangle, in pixels.
pub const MARKER_BORDER_RADIUS: u32 = 5;

/// One outbound parameter-transaction message to the host, addressed by the
/// parameter's stable identity.
#[derive(Clone, Copy, PartialEq, Eq, Structural, Debug)]
pub enum ParamMessage {
    /// The parameter is entering a user gesture.
    BeginSetParameter(u32),
    /// Write this normalized value (in ticks) to the parameter.
    SetParameterNormalized(u32, u32),
    /// The gesture on the parameter is complete.
    EndSetParameter(u32),
}

/// The XY control: gesture state and policies, the two bound parameters,
/// and the control's preferred size.
#[derive(Clone, Copy, PartialEq, Eq, Structural, Debug)]
pub struct XyInput {
    /// The drag state machine with its mapping and commit policies.
    pub drag: DragController,
    /// The parameter driven by the horizontal axis.
    pub x_param: ParamHandle,
    /// The parameter driven by the vertical axis.
    pub y_param: ParamHandle,
    /// Preferred width, in pixels.
    pub width: u32,
    /// Preferred height, in pixels.
    pub height: u32,
}

/// The messages a `SetValue` of normalized pair `(nx, ny)` publishes: both
/// writes, or none when neither axis's plain preview differs from its
/// parameter's current plain value.
pub open spec fn spec_set_messages(w: XyInput, nx: u32, ny: u32) -> Seq<ParamMessage> {
    if spec_preview_plain(w.x_param.range, nx) == w.x_param.current_plain
        && spec_preview_plain(w.y_param.range, ny) == w.y_param.current_plain {
        Seq::<ParamMessage>::empty()
    } else {
        seq![
            ParamMessage::SetParameterNormalized(w.x_param.id, nx),
            ParamMessage::SetParameterNormalized(w.y_param.id, ny),
        ]
    }
}

/// The messages one gesture intent publishes.
pub open spec fn spec_intent_messages(w: XyInput, i: Intent) -> Seq<ParamMessage> {
    match i {
        Intent::Begin => seq![
            ParamMessage::BeginSetParameter(w.x_param.id),
            ParamMessage::BeginSetParameter(w.y_param.id),
        ],
        Intent::SetValue { rx, ry } => spec_set_messages(
            w,
            clamped(rx as int) as u32,
            clamped(ry as int) as u32,
        ),
        Intent::End => seq![
            ParamMessage::EndSetParameter(w.x_param.id),
            ParamMessage::EndSetParameter(w.y_param.id),
        ],
    }
}

/// The messages a whole intent batch publishes, in order.
pub open spec fn spec_messages_of_intents(w: XyInput, ints: Seq<Intent>) -> Seq<ParamMessage>
    decreases ints.len(),
{
    if ints.len() == 0 {
        Seq::<ParamMessage>::empty()
    } else {
        spec_messages_of_intents(w, ints.drop_last()) + spec_intent_messages(w, ints.last())
    }
}

impl XyInput {
    /// Both parameter handles carry well-formed ranges.
    pub open spec fn wf(self) -> bool {
        self.x_param.wf() && self.y_param.wf()
    }

    /// Runtime check for [`XyInput::wf`], for callers outside verified code.
    pub fn is_wf(&self) -> (r: bool)
        ensures
            r == self.wf(),
    {
        self.x_param.is_wf() && self.y_param.is_wf()
    }

    /// A control over the two given parameters, with the given gesture
    /// state, a 100 by 100 pixel preferred size, the absolute mapping, and
    /// a commit on every move.
    pub fn new(state: State, x_param: ParamHandle, y_param: ParamHandle) -> (w: XyInput)
        ensures
            w.drag.state == state,
            w.drag.mode is Absolute,
            w.drag.commit is EveryMove,
            w.x_param == x_param,
            w.y_param == y_param,
            w.width == 100,
            w.height == 100,
    {
        XyInput {
            drag: DragController { state, mode: MapMode::Absolute, commit: CommitPolicy::EveryMove },
            x_param,
            y_param,
            width: 100,
            height: 100,
        }
    }

    /// Sets the preferred width of the control.
    pub fn width(self, width: u32) -> (w: XyInput)
        ensures
            w == (XyInput { width, ..self }),
    {
        XyInput { width, ..self }
    }

    /// Sets the preferred height of the control.
    pub fn height(self, height: u32) -> (w: XyInput)
        ensures
            w == (XyInput { height, ..self }),
    {
        XyInput { height, ..self }
    }

    /// Sets how pointer positions map to axis values.
    pub fn map_mode(self, mode: MapMode) -> (w: XyInput)
        ensures
            w.drag.mode == mode,
            w.drag.state == self.drag.state,
            w.drag.commit == self.drag.commit,
            w.x_param == self.x_param,
            w.y_param == self.y_param,
            w.width == self.width,
            w.height == self.height,
    {
        XyInput {
            drag: DragController { state: self.drag.state, mode, commit: self.drag.commit },
            ..self
        }
    }

    /// Sets when gesture positions are committed.
    pub fn commit_policy(self, commit: CommitPolicy) -> (w: XyInput)
        ensures
            w.drag.commit == commit,
            w.drag.state == self.drag.state,
            w.drag.mode == self.drag.mode,
            w.x_param == self.x_param,
            w.y_param == self.y_param,
            w.width == self.width,
            w.height == self.height,
    {
        XyInput {
            drag: DragController { state: self.drag.state, mode: self.drag.mode, commit },
            ..self
        }
    }

    /// Publish the pair of normalized writes for `(nx, ny)`, unless neither
    /// would change its parameter's plain value.
    fn set_normalized_value(&self, out: &mut Vec<ParamMessage>, nx: u32, ny: u32)
        requires
            self.wf(),
            is_normalized(nx),
            is_normalized(ny),
        ensures
            final(out)@ == old(out)@ + spec_set_messages(*self, nx, ny),
    {
        let plain_x: i64 = preview_plain(&self.x_param.range, nx);
        let plain_y: i64 = preview_plain(&self.y_param.range, ny);
        if plain_x != self.x_param.current_plain || plain_y != self.y_param.current_plain {
            out.push(ParamMessage::SetParameterNormalized(self.x_param.id, nx));
            out.push(ParamMessage::SetParameterNormalized(self.y_param.id, ny));
        }
        proof {
            assert(out@ =~= old(out)@ + spec_set_messages(*self, nx, ny));
        }
    }

    /// Publish the messages of one gesture intent.
    fn emit_intent(&self, i: &Intent, out: &mut Vec<ParamMessage>)
        requires
            self.wf(),
        ensures
            final(out)@ == old(out)@ + spec_intent_messages(*self, *i),
    {
        match i {
            Intent::Begin => {
                out.push(ParamMessage::BeginSetParameter(self.x_param.id));
                out.push(ParamMessage::BeginSetParameter(self.y_param.id));
                proof {
                    assert(out@ =~= old(out)@ + spec_intent_messages(*self, *i));
                }
            },
            Intent::SetValue { rx, ry } => {
                let nx: u32 = clamp_normalized(*rx);
                let ny: u32 = clamp_normalized(*ry);
                self.set_normalized_value(out, nx, ny);
            },
            Intent::End => {
                out.push(ParamMessage::EndSetParameter(self.x_param.id));
                out.push(ParamMessage::EndSetParameter(self.y_param.id));
                proof {
                    assert(out@ =~= old(out)@ + spec_intent_messages(*self, *i));
                }
            },
        }
    }

    /// Feed one raw pointer event through the control: run the drag state
    /// machine and append the messages of every emitted intent, in order.
    pub fn on_event(
        &mut self,
        ev: &PointerEvent,
        bounds: &Bounds,
        out: &mut Vec<ParamMessage>,
    ) -> (status: EventStatus)
        requires
            old(self).wf(),
        ensures
            final(self).drag == spec_step(old(self).drag, *ev, *bounds).0,
            final(self).x_param == old(self).x_param,
            final(self).y_param == old(self).y_param,
            final(self).width == old(self).width,
            final(self).height == old(self).height,
            final(out)@ == old(out)@ + spec_messages_of_intents(
                *old(self),
                spec_step(old(self).drag, *ev, *bounds).1,
            ),
            status == spec_step(old(self).drag, *ev, *bounds).2,
    {
        let ghost pre = *self;
        let (intents, status) = self.drag.handle_event(ev, bounds);
        let ghost all = spec_step(pre.drag, *ev, *bounds).1;
        let n: usize = intents.len();
        let mut k: usize = 0;
        while k < n
            invariant
                k <= n,
                n == intents.len(),
                intents@ == all,
                *self == (XyInput { drag: spec_step(pre.drag, *ev, *bounds).0, ..pre }),
                pre.wf(),
                out@ == old(out)@ + spec_messages_of_intents(pre, all.subrange(0, k as int)),
            decreases n - k,
        {
            let i = intents[k];
            proof {
                assert(all.subrange(0, k as int + 1).drop_last() =~= all.subrange(0, k as int));
                assert(all.subrange(0, k as int + 1).last() == all[k as int]);
                assert(spec_intent_messages(pre, all[k as int]) == spec_intent_messages(
                    *self,
                    all[k as int],
                ));
            }
            self.emit_intent(&i, out);
            k = k + 1;
        }
        proof {
            assert(all.subrange(0, all.len() as int) =~= all);
        }
        status
    }

    /// The control's pure frame description: the bordered frame rectangle
    /// over the bounds, and the marker rectangle whose origin sits at the
    /// position the two current normalized values map to.
    pub fn render(&self, bounds: &Bounds, nx: u32, ny: u32) -> (d: DrawDescription)
        requires
            is_normalized(nx),
            is_normalized(ny),
        ensures
            d.frame.x == bounds.x as int,
            d.frame.y == bounds.y as int,
            d.frame.width == bounds.width,
            d.frame.height == bounds.height,
            d.frame.border_width == FRAME_BORDER_WIDTH,
            d.frame.border_radius == FRAME_BORDER_RADIUS,
            d.frame.border_color == (Rgb { r: 255, g: 255, b: 255 }),
            d.frame.fill == (Rgb { r: 0, g: 0, b: 0 }),
            d.marker.x == bounds.x as int + nx as int * bounds.width as int / NORM_ONE as int,
            d.marker.y == bounds.y as int + ny as int * bounds.height as int / NORM_ONE as int,
            d.marker.width == MARKER_SIZE,
            d.marker.height == MARKER_SIZE,
            d.marker.border_width == MARKER_BORDER_WIDTH,
            d.marker.border_radius == MARKER_BORDER_RADIUS,
            d.marker.border_color == (Rgb { r: 255, g: 255, b: 255 }),
            d.marker.fill == (Rgb { r: 204, g: 204, b: 204 }),
    {
        let white = Rgb { r: 255, g: 255, b: 255 };
        proof {
            assert(nx as int * bounds.width as int <= NORM_ONE as int * bounds.width as int) by {
                vstd::arithmetic::mul::lemma_mul_inequality(
                    nx as int,
                    NORM_ONE as int,
                    bounds.width as int,
                );
            }
            assert(ny as int * bounds.height as int <= NORM_ONE as int * bounds.height as int) by {
                vstd::arithmetic::mul::lemma_mul_inequality(
                    ny as int,
                    NORM_ONE as int,
                    bounds.height as int,
                );
            }
        }
        let marker_x: i64 = bounds.x as i64 + (nx as u64 * bounds.width as u64 / NORM_ONE as u64)
            as i64;
        let marker_y: i64 = bounds.y as i64 + (ny as u64 * bounds.height as u64 / NORM_ONE as u64)
            as i64;
        DrawDescription {
            frame: Quad {
                x: bounds.x as i64,
                y: bounds.y as i64,
                width: bounds.width,
                height: bounds.height,
                border_width: FRAME_BORDER_WIDTH,
                border_radius: FRAME_BORDER_RADIUS,
                border_color: white,
                fill: Rgb { r: 0, g: 0, b: 0 },
            },
            marker: Quad {
                x: marker_x,
                y: marker_y,
                width: MARKER_SIZE,
                height: MARKER_SIZE,
                border_width: MARKER_BORDER_WIDTH,
                border_radius: MARKER_BORDER_RADIUS,
                border_color: white,
                fill: Rgb { r: 204, g: 204, b: 204 },
            },
        }
    }
}

/// Redundant-write suppression: once both parameters' current plain values
/// equal what the written pair previews to — as after the host applied the
/// first write that reached a stepped parameter's step — a `SetValue` for
/// any position previewing to that same plain pair publishes no write.
pub proof fn lemma_redundant_write_suppressed(w: XyInput, nx: u32, ny: u32)
    requires
        w.wf(),
        spec_preview_plain(w.x_param.range, nx) == w.x_param.current_plain,
        spec_preview_plain(w.y_param.range, ny) == w.y_param.current_plain,
    ensures
        spec_set_messages(w, nx, ny) == Seq::<ParamMessage>::empty(),
{
}

} // verus!
