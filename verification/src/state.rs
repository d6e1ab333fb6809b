//! The durable system-state record: which input is selected and which
//! hard-power relays are on, per logical channel.

use vstd::prelude::*;

use crate::codec::{encode_spec, encode_state, parse_state};
use crate::ids::valid_id;

verus! {

/// Why a persisted record could not be loaded at startup.
#[derive(Clone, Copy, Debug, PartialEq, Eq, Structural)]
pub enum LoadError {
    /// An existing record file does not hold the canonical encoding of
    /// any state. The record is not silently discarded: startup fails.
    MalformedRecord,
}

/// One software-side on/off flag per logical channel's hard-power relay.
///
/// The flags are write-only bookkeeping: they are never reconciled
/// against physical pin readback.
#[derive(Clone, Copy, Debug, PartialEq, Eq, Structural)]
#[verifier::ext_equal]
pub struct HardPowerFlags {
    pub ch1: bool,
    pub ch2: bool,
    pub ch3: bool,
    pub ch4: bool,
}

impl HardPowerFlags {
    /// The flag of one channel.
    pub open spec fn flag(self, id: u8) -> bool
        recommends
            valid_id(id),
    {
        if id == 1 {
            self.ch1
        } else if id == 2 {
            self.ch2
        } else if id == 3 {
            self.ch3
        } else {
            self.ch4
        }
    }

    /// All four flags off.
    pub open spec fn all_off() -> HardPowerFlags {
        HardPowerFlags { ch1: false, ch2: false, ch3: false, ch4: false }
    }

    /// This value with one channel's flag replaced.
    pub open spec fn with_flag(self, id: u8, on: bool) -> HardPowerFlags
        recommends
            valid_id(id),
    {
        if id == 1 {
            HardPowerFlags { ch1: on, ..self }
        } else if id == 2 {
            HardPowerFlags { ch2: on, ..self }
        } else if id == 3 {
            HardPowerFlags { ch3: on, ..self }
        } else {
            HardPowerFlags { ch4: on, ..self }
        }
    }

    /// Reads one channel's flag.
    pub fn get(&self, id: u8) -> (r: bool)
        requires
            valid_id(id),
        ensures
            r == self.flag(id),
    {
        if id == 1 {
            self.ch1
        } else if id == 2 {
            self.ch2
        } else if id == 3 {
            self.ch3
        } else {
            self.ch4
        }
    }
}

/// The logically observable state of the whole system.
#[derive(Clone, Copy, Debug, PartialEq, Eq, Structural)]
#[verifier::ext_equal]
pub struct SystemState {
    /// The last successfully selected input, or `None` before the first
    /// successful selection.
    pub current_input: Option<u8>,
    /// Hard-power relay flags, one per channel.
    pub hard_power: HardPowerFlags,
}

impl SystemState {
    /// A selected input, when present, names a valid channel.
    pub open spec fn wf(self) -> bool {
        self.current_input matches Some(id) ==> valid_id(id)
    }

    /// The state of a system that has never acted: no input selected,
    /// every relay off.
    pub open spec fn initial() -> SystemState {
        SystemState { current_input: None, hard_power: HardPowerFlags::all_off() }
    }

    /// This state with the current input replaced.
    pub open spec fn with_input(self, id: u8) -> SystemState
        recommends
            valid_id(id),
    {
        SystemState { current_input: Some(id), ..self }
    }

    /// This state with one hard-power flag replaced.
    pub open spec fn with_hard_power(self, id: u8, on: bool) -> SystemState
        recommends
            valid_id(id),
    {
        SystemState { hard_power: self.hard_power.with_flag(id, on), ..self }
    }
}

/// Owner of the in-memory system-state record.
///
/// Every mutation leaves the record well formed; the caller persists the
/// record after each mutation by writing [`StateStore::encoded`] to
/// durable storage, whole and fresh each time. A failed write is the
/// caller's `PersistenceError`: the in-memory record keeps the mutation
/// regardless.
#[derive(Debug)]
pub struct StateStore {
    state: SystemState,
}

impl View for StateStore {
    type V = SystemState;

    closed spec fn view(&self) -> SystemState {
        self.state
    }
}

impl StateStore {
    /// Every record the store ever holds is well formed.
    #[verifier::type_invariant]
    spec fn type_inv(self) -> bool {
        self.state.wf()
    }

    /// A store holding the initial record.
    pub fn init() -> (r: StateStore)
        ensures
            r@ == SystemState::initial(),
    {
        StateStore { state: SystemState { current_input: None, hard_power: HardPowerFlags { ch1: false, ch2: false, ch3: false, ch4: false } } }
    }

    /// Records that `id` is now the selected input.
    pub fn record_input(&mut self, id: u8)
        requires
            valid_id(id),
        ensures
            final(self)@ == old(self)@.with_input(id),
    {
        self.state.current_input = Some(id);
    }

    /// Records that channel `id`'s hard-power relay is now `on`.
    pub fn record_hard_power(&mut self, id: u8, on: bool)
        requires
            valid_id(id),
        ensures
            final(self)@ == old(self)@.with_hard_power(id, on),
    {
        proof {
            use_type_invariant(&*self);
        }
        let flags = self.state.hard_power;
        let next = if id == 1 {
            HardPowerFlags { ch1: on, ..flags }
        } else if id == 2 {
            HardPowerFlags { ch2: on, ..flags }
        } else if id == 3 {
            HardPowerFlags { ch3: on, ..flags }
        } else {
            HardPowerFlags { ch4: on, ..flags }
        };
        self.state.hard_power = next;
    }

    /// Returns a copy of the current record without touching durable
    /// storage.
    pub fn snapshot(&self) -> (r: SystemState)
        ensures
            r == self@,
            r.wf(),
    {
        proof {
            use_type_invariant(self);
        }
        self.state
    }

    /// Clears the record back to the initial value.
    pub fn reset(&mut self)
        ensures
            final(self)@ == SystemState::initial(),
    {
        self.state = SystemState { current_input: None, hard_power: HardPowerFlags { ch1: false, ch2: false, ch3: false, ch4: false } };
    }

    /// Canonical bytes of the current record — what the caller writes,
    /// whole and fresh, to durable storage after each mutation.
    pub fn encoded(&self) -> (r: Vec<u8>)
        ensures
            r@ == encode_spec(self@),
    {
        proof {
            use_type_invariant(self);
        }
        encode_state(&self.state)
    }

    /// Builds the store at startup from the persisted record.
    ///
    /// `contents` holds the record file's bytes, or `None` when no file
    /// exists yet — which is not an error: the store then starts from
    /// the initial record, and the caller creates the file by writing
    /// [`StateStore::encoded`] out at once. An existing file that holds
    /// anything but a canonical record fails startup.
    pub fn load_or_init(contents: Option<&Vec<u8>>) -> (r: Result<StateStore, LoadError>)
        ensures
            contents is None ==> (r matches Ok(st) && st@ == SystemState::initial()),
            contents matches Some(b) ==> {
                &&& (r matches Ok(st) ==> st@.wf() && b@ == encode_spec(st@))
                &&& (forall|s: SystemState|
                    s.wf() && b@ == #[trigger] encode_spec(s) ==> (r matches Ok(st) && st@ == s))
                &&& (r is Err ==> r == Err::<StateStore, LoadError>(LoadError::MalformedRecord))
            },
    {
        match contents {
            None => Ok(StateStore::init()),
            Some(b) => match parse_state(b) {
                Some(s) => Ok(StateStore { state: s }),
                None => Err(LoadError::MalformedRecord),
            },
        }
    }
}

} // verus!
