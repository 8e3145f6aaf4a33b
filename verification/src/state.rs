//! The charging state of a battery and its wire encoding.

use vstd::prelude::*;

verus! {

/// What a battery is doing, as the power service reports it.
#[derive(Clone, Copy, Debug, PartialEq, Eq, Structural)]
pub enum BatteryState {
    Unknown,
    Charging,
    Discharging,
    Empty,
    FullyCharged,
    PendingCharge,
    PendingDischarge,
}

/// The wire code of each state.
pub open spec fn code_of_state(state: BatteryState) -> u32 {
    match state {
        BatteryState::Unknown => 0,
        BatteryState::Charging => 1,
        BatteryState::Discharging => 2,
        BatteryState::Empty => 3,
        BatteryState::FullyCharged => 4,
        BatteryState::PendingCharge => 5,
        BatteryState::PendingDischarge => 6,
    }
}

/// The state that a wire code stands for, if it stands for one.
pub open spec fn state_of_code(code: u32) -> Option<BatteryState> {
    if code == 0 {
        Some(BatteryState::Unknown)
    } else if code == 1 {
        Some(BatteryState::Charging)
    } else if code == 2 {
        Some(BatteryState::Discharging)
    } else if code == 3 {
        Some(BatteryState::Empty)
    } else if code == 4 {
        Some(BatteryState::FullyCharged)
    } else if code == 5 {
        Some(BatteryState::PendingCharge)
    } else if code == 6 {
        Some(BatteryState::PendingDischarge)
    } else {
        None
    }
}

/// The total mapping from wire codes to states: a code that stands for no
/// state reads as `Unknown`.
pub open spec fn state_or_unknown(code: u32) -> BatteryState {
    match state_of_code(code) {
        Some(state) => state,
        None => BatteryState::Unknown,
    }
}

/// The words shown for each state.
pub open spec fn state_name(state: BatteryState) -> Seq<char> {
    match state {
        BatteryState::Unknown => "Unknown"@,
        BatteryState::Charging => "Charging"@,
        BatteryState::Discharging => "Discharging"@,
        BatteryState::Empty => "Empty"@,
        BatteryState::FullyCharged => "Fully charged"@,
        BatteryState::PendingCharge => "Pending charge"@,
        BatteryState::PendingDischarge => "Pending discharge"@,
    }
}

/// Every state is read back from its own wire code.
pub proof fn lemma_code_round_trip(state: BatteryState)
    ensures
        state_of_code(code_of_state(state)) == Some(state),
        state_or_unknown(code_of_state(state)) == state,
{
}

/// The mapping from codes to states is total: each code up to 6 reads as
/// the state whose code it is, and every code from 7 on reads as `Unknown`.
pub proof fn lemma_known_codes(code: u32)
    ensures
        state_of_code(code) is Some <==> code <= 6,
        code <= 6 ==> code_of_state(state_or_unknown(code)) == code,
        code >= 7 ==> state_or_unknown(code) == BatteryState::Unknown,
{
}

/// Reads a wire code. The mapping is total: each of the seven known codes
/// gives its state, and every other code gives `Unknown`; no code is an
/// error.
pub fn u32_to_battery_state(number: u32) -> (result: Result<BatteryState, u32>)
    ensures
        result == Ok::<BatteryState, u32>(state_or_unknown(number)),
{
    if number == 1 {
        Ok(BatteryState::Charging)
    } else if number == 2 {
        Ok(BatteryState::Discharging)
    } else if number == 3 {
        Ok(BatteryState::Empty)
    } else if number == 4 {
        Ok(BatteryState::FullyCharged)
    } else if number == 5 {
        Ok(BatteryState::PendingCharge)
    } else if number == 6 {
        Ok(BatteryState::PendingDischarge)
    } else {
        Ok(BatteryState::Unknown)
    }
}

/// The state that a wire code reads as, without the `Result` around it.
pub fn battery_state_from_code(number: u32) -> (state: BatteryState)
    ensures
        state == state_or_unknown(number),
{
    match u32_to_battery_state(number) {
        Ok(state) => state,
        Err(_) => BatteryState::Unknown,
    }
}

/// The wire code of a state.
pub fn battery_state_to_u32(state: BatteryState) -> (code: u32)
    ensures
        code == code_of_state(state),
{
    match state {
        BatteryState::Unknown => 0,
        BatteryState::Charging => 1,
        BatteryState::Discharging => 2,
        BatteryState::Empty => 3,
        BatteryState::FullyCharged => 4,
        BatteryState::PendingCharge => 5,
        BatteryState::PendingDischarge => 6,
    }
}

/// The words shown for a state.
pub fn battery_state_to_string(state: BatteryState) -> (name: &'static str)
    ensures
        name@ == state_name(state),
{
    match state {
        BatteryState::Unknown => "Unknown",
        BatteryState::Charging => "Charging",
        BatteryState::Discharging => "Discharging",
        BatteryState::Empty => "Empty",
        BatteryState::FullyCharged => "Fully charged",
        BatteryState::PendingCharge => "Pending charge",
        BatteryState::PendingDischarge => "Pending discharge",
    }
}

} // verus!
