//! Physical-pin model: electrical levels, per-channel pin configuration,
//! and the static map from logical identifiers to expander pins.

use vstd::prelude::*;

use crate::ids::{valid_id, EngineError, ID_COUNT};

verus! {

/// Highest physical pin index on the 8-bit expander.
pub const MAX_PIN: u8 = 7;

/// Electrical level of one expander pin.
#[derive(Clone, Copy, Debug, PartialEq, Eq, Structural)]
pub enum Level {
    High,
    Low,
}

impl Level {
    /// The opposite electrical level.
    pub open spec fn flipped(self) -> Level {
        match self {
            Level::High => Level::Low,
            Level::Low => Level::High,
        }
    }

    /// Returns the opposite electrical level.
    pub fn inverse(self) -> (r: Level)
        ensures
            r == self.flipped(),
    {
        match self {
            Level::High => Level::Low,
            Level::Low => Level::High,
        }
    }
}

/// How one logical line reaches the expander: which physical pin it sits
/// on and which level means "active" (pushed / on) for that line.
#[derive(Clone, Copy, Debug, PartialEq, Eq, Structural)]
pub struct PinConfig {
    /// Index into the expander's pins; only 0..=7 can be driven.
    pub physical_pin: u8,
    /// The level written while the action is active.
    pub asserted_level: Level,
}

impl PinConfig {
    /// A configuration can be driven only when its pin exists on the
    /// 8-bit expander.
    pub open spec fn pin_in_range(self) -> bool {
        self.physical_pin <= MAX_PIN
    }
}

/// The three kinds of switch line a logical channel can own.
#[derive(Clone, Copy, Debug, PartialEq, Eq, Structural)]
pub enum LineKind {
    /// AV-input selector line (momentary button).
    Input,
    /// Soft power button line (momentary button).
    SoftPower,
    /// Hard power relay line (bistable relay).
    HardPower,
}

/// Static map from `(line kind, logical id)` to a pin configuration.
///
/// Loaded once at startup and immutable afterwards; a channel may
/// legitimately lack an entry for some kinds.
#[derive(Clone, Copy, Debug)]
pub struct PinMap {
    input: [Option<PinConfig>; 4],
    soft_power: [Option<PinConfig>; 4],
    hard_power: [Option<PinConfig>; 4],
}

impl PinMap {
    /// The configured entry for one line of one channel, if any.
    pub closed spec fn entry(self, kind: LineKind, id: u8) -> Option<PinConfig>
        recommends
            valid_id(id),
    {
        match kind {
            LineKind::Input => self.input@[id - 1],
            LineKind::SoftPower => self.soft_power@[id - 1],
            LineKind::HardPower => self.hard_power@[id - 1],
        }
    }

    /// A map with no line configured on any channel.
    pub fn empty() -> (r: PinMap)
        ensures
            forall|kind: LineKind, id: u8| valid_id(id) ==> r.entry(kind, id) is None,
    {
        PinMap {
            input: [None, None, None, None],
            soft_power: [None, None, None, None],
            hard_power: [None, None, None, None],
        }
    }

    /// Configures one line of one channel, leaving every other entry as
    /// it was.
    pub fn set(&mut self, kind: LineKind, id: u8, cfg: PinConfig)
        requires
            valid_id(id),
        ensures
            forall|k: LineKind, i: u8|
                valid_id(i) ==> final(self).entry(k, i) == (if k == kind && i == id {
                    Some(cfg)
                } else {
                    old(self).entry(k, i)
                }),
    {
        let idx = (id - 1) as usize;
        match kind {
            LineKind::Input => {
                self.input = set_slot(self.input, idx, Some(cfg));
            },
            LineKind::SoftPower => {
                self.soft_power = set_slot(self.soft_power, idx, Some(cfg));
            },
            LineKind::HardPower => {
                self.hard_power = set_slot(self.hard_power, idx, Some(cfg));
            },
        }
    }

    /// Looks up the pin configuration for one line of a valid channel,
    /// rejecting a channel that has no entry for that kind.
    pub fn resolve(&self, kind: LineKind, id: u8) -> (r: Result<PinConfig, EngineError>)
        requires
            valid_id(id),
        ensures
            r matches Ok(cfg) ==> self.entry(kind, id) == Some(cfg),
            r is Err ==> r == Err::<PinConfig, EngineError>(EngineError::UnconfiguredId)
                && self.entry(kind, id) is None,
    {
        let idx = (id - 1) as usize;
        let slot = match kind {
            LineKind::Input => self.input[idx],
            LineKind::SoftPower => self.soft_power[idx],
            LineKind::HardPower => self.hard_power[idx],
        };
        match slot {
            Some(cfg) => Ok(cfg),
            None => Err(EngineError::UnconfiguredId),
        }
    }
}

/// Replaces one slot of a four-entry table, leaving the others as they
/// were.
fn set_slot(arr: [Option<PinConfig>; 4], idx: usize, v: Option<PinConfig>) -> (r: [Option<
    PinConfig,
>; 4])
    requires
        idx < ID_COUNT,
    ensures
        r@ == arr@.update(idx as int, v),
{
    let r = match idx {
        0 => [v, arr[1], arr[2], arr[3]],
        1 => [arr[0], v, arr[2], arr[3]],
        2 => [arr[0], arr[1], v, arr[3]],
        _ => [arr[0], arr[1], arr[2], v],
    };
    assert(r@ =~= arr@.update(idx as int, v));
    r
}

/// Hold times, in milliseconds, for the two kinds of timed pulse.
#[derive(Clone, Copy, Debug)]
pub struct Delays {
    /// How long an input-selection button press is held.
    pub button_press_delay_ms: u64,
    /// How long the first phase of a hard-power toggle is held.
    pub hard_power_delay_ms: u64,
}

} // verus!
