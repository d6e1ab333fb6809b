//! The pulse-sequencing engine.
//!
//! An actuation runs through a fixed sequence of phases: resolve the
//! request to a pin configuration, assert a level on the pin, hold it,
//! release it, and finally commit the observable result to the state
//! record. The engine owns the two decision points of that sequence and
//! proves them exact:
//!
//! * planning — [`Engine::plan_select_input`] and [`Engine::plan_power`]
//!   validate the request and return the precise ordered pin writes
//!   (with hold times) that the caller must perform, together with the
//!   record update owed on success;
//! * committing — [`Engine::commit`] takes back whether every physical
//!   write succeeded and updates the record only then.
//!
//! The writes themselves, the holds between them, and the persistence of
//! the returned record bytes are the caller's outside work. The caller
//! must serialize individual pin writes on the shared expander, but must
//! not hold that exclusion across a step's hold time: pulse phases of
//! concurrent actuations on different channels may interleave by design.

use vstd::prelude::*;

use crate::codec::encode_spec;
use crate::ids::{is_valid_id, valid_id, EngineError};
use crate::pin::{Delays, Level, LineKind, PinConfig, PinMap, MAX_PIN};
use crate::state::{StateStore, SystemState};

verus! {

/// One timed physical write: drive `physical_pin` to `level`, then keep
/// it there for `hold_ms` before the next step may run.
#[derive(Clone, Copy, Debug, PartialEq, Eq, Structural)]
pub struct PulseStep {
    pub physical_pin: u8,
    pub level: Level,
    pub hold_ms: u64,
}

/// The record update owed to the state store once every physical write
/// of a plan has succeeded.
#[derive(Clone, Copy, Debug, PartialEq, Eq, Structural)]
pub enum StateUpdate {
    /// Record `id` as the selected input.
    SelectInput { id: u8 },
    /// Record channel `id`'s hard-power relay as `on`.
    SetHardPower { id: u8, on: bool },
    /// Nothing to record (the stubbed soft-power path).
    NoChange,
}

impl StateUpdate {
    /// An update may only name valid channels.
    pub open spec fn wf(self) -> bool {
        match self {
            StateUpdate::SelectInput { id } => valid_id(id),
            StateUpdate::SetHardPower { id, on } => valid_id(id),
            StateUpdate::NoChange => true,
        }
    }
}

/// The record state after one update.
pub open spec fn apply_update(s: SystemState, u: StateUpdate) -> SystemState {
    match u {
        StateUpdate::SelectInput { id } => s.with_input(id),
        StateUpdate::SetHardPower { id, on } => s.with_hard_power(id, on),
        StateUpdate::NoChange => s,
    }
}

/// A fully resolved actuation: the physical writes to perform, in order,
/// and the record update owed on their success.
#[derive(Debug)]
pub struct Plan {
    pub steps: Vec<PulseStep>,
    pub update: StateUpdate,
}

/// The kinds of power line an actuation can address.
#[derive(Clone, Copy, Debug, PartialEq, Eq, Structural)]
pub enum PowerKind {
    /// Momentary power-button line; its hardware behaviour is a
    /// deliberate stub, so actuating it writes nothing.
    Soft,
    /// Bistable relay line driven to a resting level.
    Hard,
}

impl PowerKind {
    /// The pin-map line this power kind resolves through.
    pub open spec fn line(self) -> LineKind {
        match self {
            PowerKind::Soft => LineKind::SoftPower,
            PowerKind::Hard => LineKind::HardPower,
        }
    }
}

/// What to do with a power line.
#[derive(Clone, Copy, Debug, PartialEq, Eq, Structural)]
pub enum PowerAction {
    On,
    Off,
    Toggle,
}

/// The two-write momentary pulse of an input selection: assert the
/// active level, hold it for the button-press delay, then restore the
/// idle level.
pub open spec fn input_pulse(cfg: PinConfig, delays: Delays) -> Seq<PulseStep> {
    seq![
        PulseStep {
            physical_pin: cfg.physical_pin,
            level: cfg.asserted_level,
            hold_ms: delays.button_press_delay_ms,
        },
        PulseStep {
            physical_pin: cfg.physical_pin,
            level: cfg.asserted_level.flipped(),
            hold_ms: 0,
        },
    ]
}

/// The writes of a hard-power action: `on` and `off` drive the relay
/// directly to its resting level with a single write; `toggle` is a
/// two-phase pulse that asserts the inverse level, holds it for the
/// hard-power delay, and completes with the asserted level.
pub open spec fn hard_power_pulse(cfg: PinConfig, delays: Delays, action: PowerAction) -> Seq<
    PulseStep,
> {
    match action {
        PowerAction::On => seq![
            PulseStep { physical_pin: cfg.physical_pin, level: cfg.asserted_level, hold_ms: 0 },
        ],
        PowerAction::Off => seq![
            PulseStep {
                physical_pin: cfg.physical_pin,
                level: cfg.asserted_level.flipped(),
                hold_ms: 0,
            },
        ],
        PowerAction::Toggle => seq![
            PulseStep {
                physical_pin: cfg.physical_pin,
                level: cfg.asserted_level.flipped(),
                hold_ms: delays.hard_power_delay_ms,
            },
            PulseStep { physical_pin: cfg.physical_pin, level: cfg.asserted_level, hold_ms: 0 },
        ],
    }
}

/// Resolution shared by every entry point: an id outside the valid set
/// is rejected first, then a channel with no entry for the line, then a
/// configured pin beyond the expander's range.
pub open spec fn resolve_spec(pm: PinMap, kind: LineKind, id: u8) -> Result<
    PinConfig,
    EngineError,
> {
    if !valid_id(id) {
        Err(EngineError::InvalidId)
    } else {
        match pm.entry(kind, id) {
            None => Err(EngineError::UnconfiguredId),
            Some(cfg) => if !cfg.pin_in_range() {
                Err(EngineError::InvalidPinConfig)
            } else {
                Ok(cfg)
            },
        }
    }
}

/// The exact plan of an input selection, or the error that rejects it.
pub open spec fn select_input_plan(pm: PinMap, delays: Delays, id: u8) -> Result<
    (Seq<PulseStep>, StateUpdate),
    EngineError,
> {
    match resolve_spec(pm, LineKind::Input, id) {
        Err(e) => Err(e),
        Ok(cfg) => Ok((input_pulse(cfg, delays), StateUpdate::SelectInput { id })),
    }
}

/// The exact plan of a power actuation, or the error that rejects it.
///
/// A soft-power request resolves like any other but then writes nothing
/// and records nothing. A hard-power request records the relay as on
/// exactly when the action is not `Off`.
pub open spec fn power_plan(
    pm: PinMap,
    delays: Delays,
    kind: PowerKind,
    id: u8,
    action: PowerAction,
) -> Result<(Seq<PulseStep>, StateUpdate), EngineError> {
    match resolve_spec(pm, kind.line(), id) {
        Err(e) => Err(e),
        Ok(cfg) => match kind {
            PowerKind::Soft => Ok((Seq::empty(), StateUpdate::NoChange)),
            PowerKind::Hard => Ok(
                (
                    hard_power_pulse(cfg, delays, action),
                    StateUpdate::SetHardPower { id, on: !(action is Off) },
                ),
            ),
        },
    }
}

/// An executable plan result realizes a planned one when the steps and
/// the update agree, or both reject with the same error.
pub open spec fn plan_matches(
    r: Result<Plan, EngineError>,
    planned: Result<(Seq<PulseStep>, StateUpdate), EngineError>,
) -> bool {
    match (r, planned) {
        (Ok(p), Ok(q)) => p.steps@ == q.0 && p.update == q.1,
        (Err(e), Err(pe)) => e == pe,
        _ => false,
    }
}

/// The actuation engine: the immutable pin map and delays it was
/// configured with, and the state record it commits to.
pub struct Engine {
    pub pin_map: PinMap,
    pub delays: Delays,
    pub store: StateStore,
}

impl Engine {
    /// An engine over a configuration and a loaded state record.
    pub fn new(pin_map: PinMap, delays: Delays, store: StateStore) -> (r: Engine)
        ensures
            r.pin_map == pin_map,
            r.delays == delays,
            r.store == store,
    {
        Engine { pin_map, delays, store }
    }

    /// Validates and resolves one request; no side effects.
    fn resolve(&self, kind: LineKind, id: u8) -> (r: Result<PinConfig, EngineError>)
        ensures
            r == resolve_spec(self.pin_map, kind, id),
    {
        if !is_valid_id(id) {
            return Err(EngineError::InvalidId);
        }
        let cfg = match self.pin_map.resolve(kind, id) {
            Ok(cfg) => cfg,
            Err(e) => {
                return Err(e);
            },
        };
        if cfg.physical_pin > MAX_PIN {
            return Err(EngineError::InvalidPinConfig);
        }
        Ok(cfg)
    }

    /// Plans the selection of input `id`: exactly two writes on the
    /// configured pin — the active level held for the button-press
    /// delay, then the idle level — and one input-selection record
    /// update, owed only after both writes succeed.
    pub fn plan_select_input(&self, id: u8) -> (r: Result<Plan, EngineError>)
        ensures
            plan_matches(r, select_input_plan(self.pin_map, self.delays, id)),
    {
        let cfg = match self.resolve(LineKind::Input, id) {
            Ok(cfg) => cfg,
            Err(e) => {
                return Err(e);
            },
        };
        let mut steps: Vec<PulseStep> = Vec::new();
        steps.push(
            PulseStep {
                physical_pin: cfg.physical_pin,
                level: cfg.asserted_level,
                hold_ms: self.delays.button_press_delay_ms,
            },
        );
        steps.push(
            PulseStep {
                physical_pin: cfg.physical_pin,
                level: cfg.asserted_level.inverse(),
                hold_ms: 0,
            },
        );
        proof {
            assert(steps@ =~= input_pulse(cfg, self.delays));
        }
        Ok(Plan { steps, update: StateUpdate::SelectInput { id } })
    }

    /// Plans a power actuation. A hard-power `on` or `off` is one write
    /// to the relay's resting level; `toggle` is a two-phase pulse held
    /// for the hard-power delay; soft power resolves but writes nothing.
    pub fn plan_power(&self, kind: PowerKind, id: u8, action: PowerAction) -> (r: Result<
        Plan,
        EngineError,
    >)
        ensures
            plan_matches(r, power_plan(self.pin_map, self.delays, kind, id, action)),
    {
        let line = match kind {
            PowerKind::Soft => LineKind::SoftPower,
            PowerKind::Hard => LineKind::HardPower,
        };
        let cfg = match self.resolve(line, id) {
            Ok(cfg) => cfg,
            Err(e) => {
                return Err(e);
            },
        };
        match kind {
            PowerKind::Soft => {
                let steps: Vec<PulseStep> = Vec::new();
                proof {
                    assert(steps@ =~= Seq::<PulseStep>::empty());
                }
                Ok(Plan { steps, update: StateUpdate::NoChange })
            },
            PowerKind::Hard => {
                let mut steps: Vec<PulseStep> = Vec::new();
                match action {
                    PowerAction::On => {
                        steps.push(
                            PulseStep {
                                physical_pin: cfg.physical_pin,
                                level: cfg.asserted_level,
                                hold_ms: 0,
                            },
                        );
                    },
                    PowerAction::Off => {
                        steps.push(
                            PulseStep {
                                physical_pin: cfg.physical_pin,
                                level: cfg.asserted_level.inverse(),
                                hold_ms: 0,
                            },
                        );
                    },
                    PowerAction::Toggle => {
                        steps.push(
                            PulseStep {
                                physical_pin: cfg.physical_pin,
                                level: cfg.asserted_level.inverse(),
                                hold_ms: self.delays.hard_power_delay_ms,
                            },
                        );
                        steps.push(
                            PulseStep {
                                physical_pin: cfg.physical_pin,
                                level: cfg.asserted_level,
                                hold_ms: 0,
                            },
                        );
                    },
                }
                proof {
                    assert(steps@ =~= hard_power_pulse(cfg, self.delays, action));
                }
                let on = match action {
                    PowerAction::Off => false,
                    _ => true,
                };
                Ok(Plan { steps, update: StateUpdate::SetHardPower { id, on } })
            },
        }
    }

    /// Commits one executed plan.
    ///
    /// The caller reports whether every physical write of the plan
    /// succeeded. On failure the request is rejected with `DeviceError`
    /// and the record is left exactly as it was — a half-performed pulse
    /// is never recorded. On success the record takes the plan's update,
    /// and the new canonical record bytes are returned for the caller to
    /// persist (`None` when the plan updates nothing). A caller whose
    /// persistence write then fails reports `PersistenceError` upstream
    /// but keeps the updated in-memory record.
    pub fn commit(&mut self, plan: &Plan, writes_ok: bool) -> (r: Result<
        Option<Vec<u8>>,
        EngineError,
    >)
        requires
            plan.update.wf(),
        ensures
            final(self).pin_map == old(self).pin_map,
            final(self).delays == old(self).delays,
            !writes_ok ==> r == Err::<Option<Vec<u8>>, EngineError>(EngineError::DeviceError)
                && final(self).store@ == old(self).store@,
            writes_ok ==> {
                &&& final(self).store@ == apply_update(old(self).store@, plan.update)
                &&& r matches Ok(w)
                &&& (w is None <==> plan.update is NoChange)
                &&& (w matches Some(bytes) ==> bytes@ == encode_spec(final(self).store@))
            },
    {
        if !writes_ok {
            return Err(EngineError::DeviceError);
        }
        match plan.update {
            StateUpdate::SelectInput { id } => {
                self.store.record_input(id);
                Ok(Some(self.store.encoded()))
            },
            StateUpdate::SetHardPower { id, on } => {
                self.store.record_hard_power(id, on);
                Ok(Some(self.store.encoded()))
            },
            StateUpdate::NoChange => Ok(None),
        }
    }

    /// A copy of the current state record, straight from the store.
    pub fn current_status(&self) -> (r: SystemState)
        ensures
            r == self.store@,
            r.wf(),
    {
        self.store.snapshot()
    }
}

} // verus!
