//! The parameter-to-event bridge and its change gates.
//!
//! Once per processing block the bridge observes each tracked parameter's
//! effective plain value and decides whether to emit one timed outbound
//! control-change event for it. In edge-triggered mode a gate remembers the
//! last value sent and suppresses a repeat; in unconditional mode every
//! block emits. Inbound events the bridge does not own pass through
//! unmodified and in their original order, ahead of the bridge's own
//! emissions. A failed read of an effective value counts as no change:
//! nothing is emitted and gate memory is kept.

use vstd::prelude::*;

verus! {

/// Per-parameter memory of the last value sent; `None` until something has
/// been sent, so the first observed value always emits.
#[derive(Clone, Copy, PartialEq, Eq, Debug)]
pub struct ChangeGate {
    /// The last plain value (in ticks) emitted for this parameter.
    pub last_sent: Option<i64>,
}

impl Default for ChangeGate {
    /// A fresh gate remembers nothing.
    fn default() -> (r: ChangeGate)
        ensures
            r.last_sent is None,
    {
        ChangeGate { last_sent: None }
    }
}

/// When the bridge emits.
#[derive(Clone, Copy, PartialEq, Eq, Structural, Debug)]
pub enum EmitMode {
    /// Emit the observed value every block, changed or not.
    Unconditional,
    /// Emit only when the observed value differs from the last one sent.
    EdgeTriggered,
}

/// The fixed identity one parameter's events carry on the wire: a channel
/// and a controller number, established at initialization and never
/// reassigned.
#[derive(Clone, Copy, PartialEq, Eq, Structural, Debug)]
pub struct SlotConfig {
    pub channel: u8,
    pub cc: u8,
}

/// One timed event of a processing block: a control change, or any other
/// host event the bridge passes through untouched.
#[derive(Clone, Copy, PartialEq, Eq, Structural, Debug)]
pub enum HostEvent {
    /// A timed control-change event: offset within the block, wire identity,
    /// and the plain value in ticks.
    ControlChange { timing: u32, channel: u8, cc: u8, value: i64 },
    /// Any event the bridge does not own, opaque to it.
    Other { timing: u32, payload: u64 },
}

/// Whether observing value `v` behind gate `g` emits an event.
pub open spec fn spec_gate_emits(mode: EmitMode, g: ChangeGate, v: i64) -> bool {
    match mode {
        EmitMode::Unconditional => true,
        EmitMode::EdgeTriggered => g.last_sent != Some(v),
    }
}

/// A gate after observing value `v`: it remembers `v` exactly when an
/// event was emitted.
pub open spec fn spec_gate_after(mode: EmitMode, g: ChangeGate, v: i64) -> ChangeGate {
    if spec_gate_emits(mode, g, v) {
        ChangeGate { last_sent: Some(v) }
    } else {
        g
    }
}

/// The events one parameter slot contributes to a block: nothing when the
/// read failed or emission was suppressed, else the one control change carrying
/// the slot's identity and the observed value.
pub open spec fn spec_slot_events(
    mode: EmitMode,
    g: ChangeGate,
    slot: SlotConfig,
    v: Option<i64>,
    timing: u32,
) -> Seq<HostEvent> {
    match v {
        None => Seq::<HostEvent>::empty(),
        Some(val) => if spec_gate_emits(mode, g, val) {
            seq![
                HostEvent::ControlChange {
                    timing,
                    channel: slot.channel,
                    cc: slot.cc,
                    value: val,
                },
            ]
        } else {
            Seq::<HostEvent>::empty()
        },
    }
}

/// A slot's gate after one block: unchanged when the read failed.
pub open spec fn spec_slot_gate_after(mode: EmitMode, g: ChangeGate, v: Option<i64>) -> ChangeGate {
    match v {
        None => g,
        Some(val) => spec_gate_after(mode, g, val),
    }
}

/// The bridge for the two axis parameters: an emission mode, one fixed wire
/// slot and one gate per parameter.
#[derive(Clone, Copy, PartialEq, Eq, Debug)]
pub struct EventBridge {
    /// When to emit.
    pub mode: EmitMode,
    /// Wire identity of the horizontal axis parameter.
    pub x_slot: SlotConfig,
    /// Wire identity of the vertical axis parameter.
    pub y_slot: SlotConfig,
    /// Gate of the horizontal axis parameter.
    pub x_gate: ChangeGate,
    /// Gate of the vertical axis parameter.
    pub y_gate: ChangeGate,
}

impl EventBridge {
    /// A bridge with the given mode and wire slots, and fresh gates, so the
    /// first observed value of each parameter emits.
    pub fn new(mode: EmitMode, x_slot: SlotConfig, y_slot: SlotConfig) -> (b: EventBridge)
        ensures
            b.mode == mode,
            b.x_slot == x_slot,
            b.y_slot == y_slot,
            b.x_gate.last_sent is None,
            b.y_gate.last_sent is None,
    {
        EventBridge {
            mode,
            x_slot,
            y_slot,
            x_gate: ChangeGate { last_sent: None },
            y_gate: ChangeGate { last_sent: None },
        }
    }

    /// A bridge on the surface's default wire table: both axes on channel 1,
    /// the horizontal axis as controller 70 and the vertical as 71.
    pub fn default_xy(mode: EmitMode) -> (b: EventBridge)
        ensures
            b.mode == mode,
            b.x_slot == (SlotConfig { channel: 1, cc: 70 }),
            b.y_slot == (SlotConfig { channel: 1, cc: 71 }),
            b.x_gate.last_sent is None,
            b.y_gate.last_sent is None,
    {
        EventBridge::new(
            mode,
            SlotConfig { channel: 1, cc: 70 },
            SlotConfig { channel: 1, cc: 71 },
        )
    }

    /// Run one processing block: pass every inbound event through unchanged
    /// and in order, then decide, for the horizontal and then the vertical
    /// parameter, whether its observed effective value emits one timed
    /// control change. Gates remember what was sent; slots and mode never
    /// change.
    pub fn run_block(
        &mut self,
        inbound: Vec<HostEvent>,
        x_value: Option<i64>,
        y_value: Option<i64>,
        timing: u32,
    ) -> (out: Vec<HostEvent>)
        ensures
            out@ == inbound@ + spec_slot_events(
                old(self).mode,
                old(self).x_gate,
                old(self).x_slot,
                x_value,
                timing,
            ) + spec_slot_events(
                old(self).mode,
                old(self).y_gate,
                old(self).y_slot,
                y_value,
                timing,
            ),
            final(self).x_gate == spec_slot_gate_after(old(self).mode, old(self).x_gate, x_value),
            final(self).y_gate == spec_slot_gate_after(old(self).mode, old(self).y_gate, y_value),
            final(self).mode == old(self).mode,
            final(self).x_slot == old(self).x_slot,
            final(self).y_slot == old(self).y_slot,
    {
        let ghost pre = *self;
        let mut out = inbound;
        match x_value {
            None => {},
            Some(val) => {
                if self.gate_emits_x(val) {
                    out.push(
                        HostEvent::ControlChange {
                            timing,
                            channel: self.x_slot.channel,
                            cc: self.x_slot.cc,
                            value: val,
                        },
                    );
                    self.x_gate = ChangeGate { last_sent: Some(val) };
                }
            },
        }
        match y_value {
            None => {},
            Some(val) => {
                if self.gate_emits_y(val) {
                    out.push(
                        HostEvent::ControlChange {
                            timing,
                            channel: self.y_slot.channel,
                            cc: self.y_slot.cc,
                            value: val,
                        },
                    );
                    self.y_gate = ChangeGate { last_sent: Some(val) };
                }
            },
        }
        proof {
            assert(out@ =~= inbound@ + spec_slot_events(
                pre.mode,
                pre.x_gate,
                pre.x_slot,
                x_value,
                timing,
            ) + spec_slot_events(pre.mode, pre.y_gate, pre.y_slot, y_value, timing));
        }
        out
    }

    /// Whether observing `val` on the horizontal axis emits.
    fn gate_emits_x(&self, val: i64) -> (r: bool)
        ensures
            r == spec_gate_emits(self.mode, self.x_gate, val),
    {
        match self.mode {
            EmitMode::Unconditional => true,
            EmitMode::EdgeTriggered => match self.x_gate.last_sent {
                None => true,
                Some(prev) => prev != val,
            },
        }
    }

    /// Whether observing `val` on the vertical axis emits.
    fn gate_emits_y(&self, val: i64) -> (r: bool)
        ensures
            r == spec_gate_emits(self.mode, self.y_gate, val),
    {
        match self.mode {
            EmitMode::Unconditional => true,
            EmitMode::EdgeTriggered => match self.y_gate.last_sent {
                None => true,
                Some(prev) => prev != val,
            },
        }
    }
}

/// How many events one parameter's gate emits in edge-triggered mode over a
/// sequence of observed values, gates threaded from block to block.
pub open spec fn spec_edge_emit_count(g: ChangeGate, vals: Seq<i64>) -> nat
    decreases vals.len(),
{
    if vals.len() == 0 {
        0
    } else {
        let emitted: nat = if spec_gate_emits(EmitMode::EdgeTriggered, g, vals[0]) {
            1
        } else {
            0
        };
        emitted + spec_edge_emit_count(
            spec_gate_after(EmitMode::EdgeTriggered, g, vals[0]),
            vals.subrange(1, vals.len() as int),
        )
    }
}

/// A gate that already sent `v` stays silent over any run of blocks that
/// all observe `v`.
proof fn lemma_edge_constant_silent(g: ChangeGate, vals: Seq<i64>, v: i64)
    requires
        g.last_sent == Some(v),
        forall|i: int| 0 <= i < vals.len() ==> vals[i] == v,
    ensures
        spec_edge_emit_count(g, vals) == 0,
    decreases vals.len(),
{
    if vals.len() == 0 {
    } else {
        assert(vals[0] == v);
        lemma_edge_constant_silent(g, vals.subrange(1, vals.len() as int), v);
    }
}

/// Change-gate suppression: over any run of blocks that all observe one and
/// the same value, a fresh edge-triggered gate emits exactly one event — on
/// the first block — and none on the rest.
pub proof fn lemma_edge_triggered_suppression(vals: Seq<i64>, v: i64)
    requires
        vals.len() >= 1,
        forall|i: int| 0 <= i < vals.len() ==> vals[i] == v,
    ensures
        spec_edge_emit_count(ChangeGate { last_sent: None }, vals) == 1,
{
    let g0 = ChangeGate { last_sent: None };
    assert(vals[0] == v);
    assert(spec_gate_emits(EmitMode::EdgeTriggered, g0, v));
    lemma_edge_constant_silent(
        spec_gate_after(EmitMode::EdgeTriggered, g0, v),
        vals.subrange(1, vals.len() as int),
        v,
    );
}

/// Change-gate sensitivity: when the observed value changes from the `v1`
/// last sent to a different `v2`, the block that observes the change emits
/// exactly one event, it carries `v2`, and `v2` is then remembered.
pub proof fn lemma_edge_triggered_sensitivity(
    g: ChangeGate,
    slot: SlotConfig,
    v1: i64,
    v2: i64,
    timing: u32,
)
    requires
        g.last_sent == Some(v1),
        v1 != v2,
    ensures
        spec_slot_events(EmitMode::EdgeTriggered, g, slot, Some(v2), timing) == seq![
            HostEvent::ControlChange { timing, channel: slot.channel, cc: slot.cc, value: v2 },
        ],
        spec_slot_gate_after(EmitMode::EdgeTriggered, g, Some(v2)).last_sent == Some(v2),
{
}

} // verus!
