//! The sensor crates as the library sees them: sysinfo's memory counters and
//! battery's device state.
use crate::stats::{aggregate, snapshot_of, BatteryProbe, ChargeState, RawReadings, SystemStats};
use vstd::prelude::*;

verus! {

#[verifier::external_type_specification]
#[verifier::external_body]
pub struct ExSystem(sysinfo::System);

/// `battery::State` is a public enum whose variants carry no data, so Verus
/// reads its variants as they are declared.
#[verifier::external_type_specification]
pub struct ExBatteryState(battery::State);

/// Relies on sysinfo's `System::total_memory`: the RAM size in bytes as of the
/// last memory refresh. It depends on the machine, so nothing is stated of it.
pub assume_specification[ sysinfo::System::total_memory ](sys: &sysinfo::System) -> u64;

/// Relies on sysinfo's `System::available_memory`: the available RAM in bytes
/// as of the last memory refresh. It depends on the machine, so nothing is
/// stated of it; in particular it may exceed the total.
pub assume_specification[ sysinfo::System::available_memory ](sys: &sysinfo::System) -> u64;

/// The state that a device state of the battery crate stands for: each named
/// state maps to the one of the same name, and the crate's hidden placeholder
/// variant to `Unknown`. None of them means that there is no battery.
pub open spec fn charge_state_from(state: battery::State) -> ChargeState {
    match state {
        battery::State::Charging => ChargeState::Charging,
        battery::State::Discharging => ChargeState::Discharging,
        battery::State::Full => ChargeState::Full,
        battery::State::Empty => ChargeState::Empty,
        _ => ChargeState::Unknown,
    }
}

impl ChargeState {
    /// The state that a battery device reports.
    pub fn from_battery_state(state: battery::State) -> (r: ChargeState)
        ensures
            r == charge_state_from(state),
            state is Charging ==> r == ChargeState::Charging,
            state is Discharging ==> r == ChargeState::Discharging,
            state is Full ==> r == ChargeState::Full,
            state is Empty ==> r == ChargeState::Empty,
            !(state is Charging || state is Discharging || state is Full || state is Empty)
                ==> r == ChargeState::Unknown,
            r != ChargeState::NoBattery,
    {
        match state {
            battery::State::Charging => ChargeState::Charging,
            battery::State::Discharging => ChargeState::Discharging,
            battery::State::Full => ChargeState::Full,
            battery::State::Empty => ChargeState::Empty,
            _ => ChargeState::Unknown,
        }
    }
}

/// Collects a snapshot: memory from `sys` (which the caller has refreshed),
/// with the CPU reading and battery probe that the caller took. Whatever the
/// memory counters say, the snapshot is the aggregation of some total and
/// available amount with the given CPU and battery readings.
pub fn collect_system_stats(sys: &sysinfo::System, cpu_tenths: i64, battery: BatteryProbe) -> (r:
    SystemStats)
    ensures
        r.wf(),
        exists|total: u64, available: u64|
            r == snapshot_of(
                (RawReadings {
                    cpu_tenths,
                    memory_total: total,
                    memory_available: available,
                    battery,
                }),
            ),
{
    let memory_total = sys.total_memory();
    let memory_available = sys.available_memory();
    let readings = RawReadings { cpu_tenths, memory_total, memory_available, battery };
    let r = aggregate(readings);
    assert(r == snapshot_of(readings));
    r
}

} // verus!
