//! The library's cross-cutting guarantees, each stated once over the
//! specification functions that the executable contracts use.

use vstd::prelude::*;

use crate::codec::{encode_spec, lemma_encode_injective};
use crate::engine::{
    apply_update, power_plan, select_input_plan, PowerAction, PowerKind, PulseStep, StateUpdate,
};
use crate::ids::{valid_id, EngineError};
use crate::pin::{Delays, LineKind, PinConfig, PinMap, MAX_PIN};
use crate::state::SystemState;

verus! {

/// An id outside the valid set is rejected with `InvalidId` by every
/// entry point, whatever the pin map, the delays, the line kind or the
/// action. No plan comes back, so the caller has no write to perform and
/// no update to commit: the device and the record stay untouched.
pub proof fn lemma_invalid_id_rejected(
    pm: PinMap,
    delays: Delays,
    id: u8,
    kind: PowerKind,
    action: PowerAction,
)
    requires
        !valid_id(id),
    ensures
        select_input_plan(pm, delays, id) == Err::<(Seq<PulseStep>, StateUpdate), EngineError>(
            EngineError::InvalidId,
        ),
        power_plan(pm, delays, kind, id, action) == Err::<
            (Seq<PulseStep>, StateUpdate),
            EngineError,
        >(EngineError::InvalidId),
{
}

/// A valid id whose channel has no pin mapping for the requested line is
/// rejected with `UnconfiguredId` before any plan — and so before any
/// device write — exists.
pub proof fn lemma_unconfigured_rejected(
    pm: PinMap,
    delays: Delays,
    id: u8,
    kind: PowerKind,
    action: PowerAction,
)
    requires
        valid_id(id),
    ensures
        pm.entry(LineKind::Input, id) is None ==> select_input_plan(pm, delays, id) == Err::<
            (Seq<PulseStep>, StateUpdate),
            EngineError,
        >(EngineError::UnconfiguredId),
        pm.entry(kind.line(), id) is None ==> power_plan(pm, delays, kind, id, action) == Err::<
            (Seq<PulseStep>, StateUpdate),
            EngineError,
        >(EngineError::UnconfiguredId),
{
}

/// An accepted input selection is exactly two physical writes on the
/// configured pin — the active level, held for the full button-press
/// delay, then the idle level — and exactly one record update, which
/// selects that id; committing the update after the writes changes
/// nothing else of the record.
pub proof fn lemma_input_selection_pulse(
    pm: PinMap,
    delays: Delays,
    id: u8,
    cfg: PinConfig,
    s: SystemState,
)
    requires
        valid_id(id),
        pm.entry(LineKind::Input, id) == Some(cfg),
        cfg.pin_in_range(),
    ensures
        ({
            let r = select_input_plan(pm, delays, id);
            &&& r is Ok
            &&& r->Ok_0.0.len() == 2
            &&& r->Ok_0.0[0] == (PulseStep {
                physical_pin: cfg.physical_pin,
                level: cfg.asserted_level,
                hold_ms: delays.button_press_delay_ms,
            })
            &&& r->Ok_0.0[0].hold_ms >= delays.button_press_delay_ms
            &&& r->Ok_0.0[1] == (PulseStep {
                physical_pin: cfg.physical_pin,
                level: cfg.asserted_level.flipped(),
                hold_ms: 0,
            })
            &&& r->Ok_0.1 == (StateUpdate::SelectInput { id })
            &&& apply_update(s, r->Ok_0.1) == (SystemState {
                current_input: Some(id),
                ..s
            })
        }),
{
}

/// An accepted hard-power `on` or `off` is exactly one physical write —
/// to the asserted level for `on`, to its inverse for `off` — and one
/// record update carrying the corresponding boolean; committing it sets
/// exactly that channel's flag.
pub proof fn lemma_hard_power_level_write(
    pm: PinMap,
    delays: Delays,
    id: u8,
    cfg: PinConfig,
    on: bool,
    s: SystemState,
)
    requires
        valid_id(id),
        pm.entry(LineKind::HardPower, id) == Some(cfg),
        cfg.pin_in_range(),
    ensures
        ({
            let action = if on {
                PowerAction::On
            } else {
                PowerAction::Off
            };
            let r = power_plan(pm, delays, PowerKind::Hard, id, action);
            &&& r is Ok
            &&& r->Ok_0.0.len() == 1
            &&& r->Ok_0.0[0] == (PulseStep {
                physical_pin: cfg.physical_pin,
                level: if on {
                    cfg.asserted_level
                } else {
                    cfg.asserted_level.flipped()
                },
                hold_ms: 0,
            })
            &&& r->Ok_0.1 == (StateUpdate::SetHardPower { id, on })
            &&& apply_update(s, r->Ok_0.1).hard_power.flag(id) == on
            &&& apply_update(s, r->Ok_0.1).current_input == s.current_input
        }),
{
}

/// An accepted hard-power toggle is exactly two physical writes — the
/// inverse level, held for the full hard-power delay, then the asserted
/// level — and ends with one record update that marks the relay on.
pub proof fn lemma_hard_power_toggle_pulse(
    pm: PinMap,
    delays: Delays,
    id: u8,
    cfg: PinConfig,
    s: SystemState,
)
    requires
        valid_id(id),
        pm.entry(LineKind::HardPower, id) == Some(cfg),
        cfg.pin_in_range(),
    ensures
        ({
            let r = power_plan(pm, delays, PowerKind::Hard, id, PowerAction::Toggle);
            &&& r is Ok
            &&& r->Ok_0.0.len() == 2
            &&& r->Ok_0.0[0] == (PulseStep {
                physical_pin: cfg.physical_pin,
                level: cfg.asserted_level.flipped(),
                hold_ms: delays.hard_power_delay_ms,
            })
            &&& r->Ok_0.0[0].hold_ms >= delays.hard_power_delay_ms
            &&& r->Ok_0.0[1] == (PulseStep {
                physical_pin: cfg.physical_pin,
                level: cfg.asserted_level,
                hold_ms: 0,
            })
            &&& r->Ok_0.1 == (StateUpdate::SetHardPower { id, on: true })
            &&& apply_update(s, r->Ok_0.1).hard_power.flag(id)
        }),
{
}

/// Recording one channel's relay twice keeps the last value and touches
/// nothing else: every other channel's flag and the input selection stay
/// as they were.
pub proof fn lemma_hard_power_record_twice(s: SystemState, id: u8, first: bool, second: bool)
    requires
        valid_id(id),
    ensures
        ({
            let t = s.with_hard_power(id, first).with_hard_power(id, second);
            &&& t.hard_power.flag(id) == second
            &&& (forall|j: u8|
                valid_id(j) && j != id ==> t.hard_power.flag(j) == s.hard_power.flag(j))
            &&& t.current_input == s.current_input
        }),
{
}

/// Every step of an accepted plan drives a pin that exists on the 8-bit
/// expander: a configuration whose pin lies beyond the range is rejected
/// during resolution, before any write is attempted.
pub proof fn lemma_plans_stay_on_the_expander(
    pm: PinMap,
    delays: Delays,
    id: u8,
    kind: PowerKind,
    action: PowerAction,
)
    ensures
        select_input_plan(pm, delays, id) matches Ok(p) ==> (forall|k: int|
            0 <= k < p.0.len() ==> #[trigger] p.0[k].physical_pin <= MAX_PIN),
        power_plan(pm, delays, kind, id, action) matches Ok(p) ==> (forall|k: int|
            0 <= k < p.0.len() ==> #[trigger] p.0[k].physical_pin <= MAX_PIN),
{
}

/// A freshly initialized record round-trips: the canonical bytes written
/// at the first startup decode to the initial state and to nothing else,
/// so starting again over the same file yields a byte-identical record.
pub proof fn lemma_fresh_record_round_trip(s: SystemState)
    requires
        s.wf(),
        encode_spec(s) == encode_spec(SystemState::initial()),
    ensures
        s == SystemState::initial(),
{
    lemma_encode_injective(s, SystemState::initial());
}

} // verus!
