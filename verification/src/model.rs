//! Battery, memory and disk readings as plain values, and the rules that
//! turn the battery service's raw properties into events.

use std::sync::Arc;
use std::sync::atomic::AtomicBool;
use vstd::prelude::*;

verus! {

/// Owns the flag that keeps the battery listener running.
pub struct BatteryModel {
    running: Arc<AtomicBool>,
}

/// A change reported by the battery service.
#[derive(Debug, Clone, Copy, PartialEq, Eq, Structural)]
pub enum BatteryEvent {
    PercentageUpdate(u8),
    StateUpdate(BatteryState),
}

/// Charge state of the battery, as the UPower service numbers it.
#[derive(Debug, Clone, Copy, PartialEq, Eq, Structural)]
pub enum BatteryState {
    Unknown,
    Charging,
    Discharging,
    Empty,
    Full,
    PendingCharge,
    PendingDischarge,
}

/// The state that UPower's number `variant` stands for, if any.
pub open spec fn upower_state(variant: u8) -> Option<BatteryState> {
    if variant == 0 {
        Some(BatteryState::Unknown)
    } else if variant == 1 {
        Some(BatteryState::Charging)
    } else if variant == 2 {
        Some(BatteryState::Discharging)
    } else if variant == 3 {
        Some(BatteryState::Empty)
    } else if variant == 4 {
        Some(BatteryState::Full)
    } else if variant == 5 {
        Some(BatteryState::PendingCharge)
    } else if variant == 6 {
        Some(BatteryState::PendingDischarge)
    } else {
        None
    }
}

/// UPower's number for `state`.
pub open spec fn upower_variant(state: BatteryState) -> u8 {
    match state {
        BatteryState::Unknown => 0,
        BatteryState::Charging => 1,
        BatteryState::Discharging => 2,
        BatteryState::Empty => 3,
        BatteryState::Full => 4,
        BatteryState::PendingCharge => 5,
        BatteryState::PendingDischarge => 6,
    }
}

/// The text under which a state is shown.
pub open spec fn state_label(state: BatteryState) -> Seq<char> {
    match state {
        BatteryState::Unknown => "Unknown"@,
        BatteryState::Charging => "Charging"@,
        BatteryState::Discharging => "Unplugged"@,
        BatteryState::Empty => "Empty"@,
        BatteryState::Full => "Full"@,
        BatteryState::PendingCharge => "Pending Charge"@,
        BatteryState::PendingDischarge => "Pending Discharge"@,
    }
}

impl BatteryState {
    /// The state UPower numbers `variant`; any number above 6 is refused.
    pub fn from_upower_variant(variant: u8) -> (r: Result<Self, ModelError>)
        ensures
            match upower_state(variant) {
                Some(s) => r == Ok::<BatteryState, ModelError>(s),
                None => r == Err::<BatteryState, ModelError>(ModelError::InvalidBatteryVariant(variant)),
            },
    {
        let ret = match variant {
            0 => Self::Unknown,
            1 => Self::Charging,
            2 => Self::Discharging,
            3 => Self::Empty,
            4 => Self::Full,
            5 => Self::PendingCharge,
            6 => Self::PendingDischarge,
            _ => {
                return Err(ModelError::InvalidBatteryVariant(variant));
            },
        };
        Ok(ret)
    }

    /// The text under which the state is shown (what `Display` writes).
    pub fn label(&self) -> (s: &'static str)
        ensures
            s@ == state_label(*self),
    {
        match self {
            BatteryState::Unknown => "Unknown",
            BatteryState::Charging => "Charging",
            BatteryState::Discharging => "Unplugged",
            BatteryState::Empty => "Empty",
            BatteryState::Full => "Full",
            BatteryState::PendingCharge => "Pending Charge",
            BatteryState::PendingDischarge => "Pending Discharge",
        }
    }
}

/// Every state comes back from its own UPower number, and no number
/// outside `0..=6` names a state.
pub proof fn lemma_upower_round_trip(state: BatteryState, variant: u8)
    ensures
        upower_state(upower_variant(state)) == Some(state),
        upower_state(variant) is Some <==> variant <= 6,
        upower_state(variant) matches Some(s) ==> upower_variant(s) == variant,
{
}

/// The event that a change of the battery's `State` and `Percentage`
/// properties stands for. `state` is the raw property (a `u32`, of which
/// only the low byte is kept, as `as u8` does); a state change wins over
/// a percentage change.
pub open spec fn signal_event(state: Option<u32>, percentage: Option<u8>) -> Result<Option<BatteryEvent>, ModelError> {
    match state {
        Some(s) => match upower_state((s % 256) as u8) {
            Some(st) => Ok(Some(BatteryEvent::StateUpdate(st))),
            None => Err(ModelError::InvalidBatteryVariant((s % 256) as u8)),
        },
        None => match percentage {
            Some(p) => Ok(Some(BatteryEvent::PercentageUpdate(p))),
            None => Ok(None),
        },
    }
}

impl BatteryEvent {
    /// Turns changed battery properties into an event: `Ok(None)` when
    /// neither property changed, an error when the state number is unknown.
    pub fn from_properties(state: Option<u32>, percentage: Option<u8>) -> (r: Result<Option<BatteryEvent>, ModelError>)
        ensures
            r == signal_event(state, percentage),
    {
        match state {
            Some(s) => {
                let variant: u8 = (s % 256) as u8;
                match BatteryState::from_upower_variant(variant) {
                    Ok(st) => Ok(Some(BatteryEvent::StateUpdate(st))),
                    Err(e) => Err(e),
                }
            },
            None => match percentage {
                Some(p) => Ok(Some(BatteryEvent::PercentageUpdate(p))),
                None => Ok(None),
            },
        }
    }
}

/// Source of disk readings (the application reads the disks).
pub struct DiskModel;

/// Source of memory readings (the application reads the counters).
pub struct MemoryModel;

/// One reading of memory and swap use, in bytes.
#[derive(Debug, Clone, Copy, PartialEq, Eq, Structural)]
pub struct MemoryData {
    pub total_memory: u64,
    pub used_memory: u64,
    pub total_swap: u64,
    pub used_swap: u64,
}

impl DiskModel {
    pub fn new() -> (m: Self) {
        DiskModel
    }
}

impl MemoryModel {
    pub fn new() -> (m: Self) {
        MemoryModel
    }
}

impl BatteryModel {
    /// The flag this model reads and clears.
    pub closed spec fn flag(&self) -> Arc<AtomicBool> {
        self.running
    }

    /// A model that shares `running` when one is given, and otherwise owns
    /// a fresh flag, created cleared.
    pub fn new(running: Option<Arc<AtomicBool>>) -> (m: Self)
        ensures
            running matches Some(r) ==> m.flag() == r,
    {
        let running = match running {
            Some(running) => running,
            None => Arc::new(AtomicBool::new(false)),
        };
        Self { running }
    }

    /// The shared running flag.
    pub fn running(&self) -> (r: &Arc<AtomicBool>)
        ensures
            *r == self.flag(),
    {
        &self.running
    }

    /// Clears the running flag, which ends the listener's loop.
    pub fn stop(&self)
        opens_invariants none
        no_unwind
    {
        clear_flag(&self.running);
    }
}

/// `AtomicBool::store` of `false` with `SeqCst` ordering. Its documentation
/// says it panics only for the `Acquire` and `AcqRel` orderings, so the call
/// neither unwinds nor opens an invariant; nothing is claimed of the value
/// that later loads see, which other threads may change.
#[verifier::external_body]
pub(crate) fn clear_flag(flag: &AtomicBool)
    opens_invariants none
    no_unwind
{
    flag.store(false, std::sync::atomic::Ordering::SeqCst)
}

/// Errors of the battery service.
#[derive(Debug, Clone, PartialEq, Eq)]
pub enum ModelError {
    /// The message bus failed; the text is the bus error's message.
    Dbus(String),
    /// The service reported a state number that names no state.
    InvalidBatteryVariant(u8),
}

impl ModelError {
    /// The message that the error shows.
    pub fn message(&self) -> (s: String)
        ensures
            match self {
                ModelError::Dbus(m) => s@ == m@,
                ModelError::InvalidBatteryVariant(v) => s@ == "Invalid variant: "@ + crate::text::decimal(*v as nat),
            },
    {
        match self {
            ModelError::Dbus(m) => m.clone(),
            ModelError::InvalidBatteryVariant(v) => {
                let mut s = crate::text::owned("Invalid variant: ");
                crate::text::push_decimal(&mut s, *v as u128);
                s
            },
        }
    }
}

} // verus!
