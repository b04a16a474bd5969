//! The snapshot type and the aggregator that builds one per tick.
use vstd::prelude::*;

verus! {

/// A full percentage, in tenths of a percent.
pub const FULL_TENTHS: u32 = 1000;

/// State of the first battery found, or that there is none.
#[derive(Clone, Copy, Debug, PartialEq, Eq, Structural)]
pub enum ChargeState {
    Charging,
    Discharging,
    Full,
    Empty,
    Unknown,
    NoBattery,
}

impl ChargeState {
    /// The word the menu shows for this state.
    pub open spec fn label(self) -> Seq<char> {
        match self {
            ChargeState::Charging => "Charging"@,
            ChargeState::Discharging => "Discharging"@,
            ChargeState::Full => "Full"@,
            ChargeState::Empty => "Empty"@,
            ChargeState::Unknown => "Unknown"@,
            ChargeState::NoBattery => "No Battery"@,
        }
    }
}

/// One reading of every sensor, taken as a whole and never changed after.
///
/// `cpu_usage`, `memory_percent` and `battery_percent` are in tenths of a
/// percent; `memory_used` and `memory_total` are in bytes.
#[derive(Clone, Copy, Debug, PartialEq, Eq, Structural)]
pub struct SystemStats {
    pub cpu_usage: u32,
    pub memory_used: u64,
    pub memory_total: u64,
    pub memory_percent: u32,
    pub battery_percent: u32,
    pub battery_state: ChargeState,
}

/// Clamps a signed reading in tenths of a percent into `0..=1000`.
pub open spec fn clamped(raw: int) -> int {
    if raw < 0 {
        0
    } else if raw > FULL_TENTHS {
        FULL_TENTHS as int
    } else {
        raw
    }
}

/// `used / total * 100`, in tenths of a percent rounded to the nearest tenth
/// (halves up), clamped to a full percentage; `0` where there is no memory.
pub open spec fn memory_percent_of(used: int, total: int) -> int {
    if total <= 0 {
        0
    } else {
        clamped((used * 1000 + total / 2) / total)
    }
}

impl SystemStats {
    /// What every snapshot built by the aggregator satisfies.
    pub open spec fn wf(self) -> bool {
        &&& self.cpu_usage <= FULL_TENTHS
        &&& self.memory_used <= self.memory_total
        &&& self.memory_percent == memory_percent_of(
            self.memory_used as int,
            self.memory_total as int,
        )
        &&& self.battery_percent <= FULL_TENTHS
    }
}

impl SystemStats {
    /// Whether this snapshot satisfies what the aggregator guarantees.
    pub fn is_consistent(&self) -> (r: bool)
        ensures
            r == self.wf(),
    {
        self.cpu_usage <= FULL_TENTHS && self.memory_used <= self.memory_total
            && self.memory_percent == memory_percent(self.memory_used, self.memory_total)
            && self.battery_percent <= FULL_TENTHS
    }
}

/// Clamps a raw reading in tenths of a percent, which a sensor may report
/// out of range, into `0..=1000`.
pub fn clamp_tenths(raw: i64) -> (r: u32)
    ensures
        r == clamped(raw as int),
        r <= FULL_TENTHS,
{
    if raw < 0 {
        0
    } else if raw > FULL_TENTHS as i64 {
        FULL_TENTHS
    } else {
        raw as u32
    }
}

/// The memory percentage of `used` bytes out of `total`.
pub fn memory_percent(used: u64, total: u64) -> (r: u32)
    ensures
        r == memory_percent_of(used as int, total as int),
        r <= FULL_TENTHS,
{
    if total == 0 {
        0
    } else {
        let scaled: u128 = (used as u128) * 1000 + (total as u128) / 2;
        let q: u128 = scaled / (total as u128);
        clamp_tenths(if q > 1001 { 1001 } else { q as i64 })
    }
}

/// Used and total memory in bytes, as the aggregator derives them.
#[derive(Clone, Copy, Debug, PartialEq, Eq, Structural)]
pub struct MemoryReading {
    pub used: u64,
    pub total: u64,
}

/// What the battery query gave: the first device's charge (in tenths of a
/// percent, possibly out of range) and state, or why there is none.
#[derive(Clone, Copy, Debug, PartialEq, Eq, Structural)]
pub enum BatteryProbe {
    /// The battery manager could not be created.
    ManagerUnavailable,
    /// The manager could not list the batteries.
    ListUnavailable,
    /// No battery could be read.
    NoDevice,
    /// The first battery's raw charge and state.
    Device { charge_tenths: i64, state: ChargeState },
}

/// Everything one tick reads from the sensors, before normalization.
#[derive(Clone, Copy, Debug, PartialEq, Eq, Structural)]
pub struct RawReadings {
    /// CPU utilization in tenths of a percent, as the sensor gave it.
    pub cpu_tenths: i64,
    pub memory_total: u64,
    pub memory_available: u64,
    pub battery: BatteryProbe,
}

/// Used memory derived as `total - available`, with `available` first capped
/// at `total`: the result never exceeds `total`.
pub open spec fn memory_of(total: u64, available: u64) -> MemoryReading {
    MemoryReading {
        used: (if available <= total { total - available } else { 0 }) as u64,
        total,
    }
}

/// The battery percentage and state that a probe stands for.
pub open spec fn battery_of(probe: BatteryProbe) -> (u32, ChargeState) {
    match probe {
        BatteryProbe::ManagerUnavailable => (0, ChargeState::Unknown),
        BatteryProbe::ListUnavailable => (0, ChargeState::Unknown),
        BatteryProbe::NoDevice => (0, ChargeState::NoBattery),
        BatteryProbe::Device { charge_tenths, state } => (
            clamped(charge_tenths as int) as u32,
            state,
        ),
    }
}

/// The snapshot that one set of readings yields.
pub open spec fn snapshot_of(r: RawReadings) -> SystemStats {
    let mem = memory_of(r.memory_total, r.memory_available);
    let (battery_percent, battery_state) = battery_of(r.battery);
    SystemStats {
        cpu_usage: clamped(r.cpu_tenths as int) as u32,
        memory_used: mem.used,
        memory_total: mem.total,
        memory_percent: memory_percent_of(mem.used as int, mem.total as int) as u32,
        battery_percent,
        battery_state,
    }
}

/// Derives used memory from the total and the available amount.
pub fn normalize_memory(total: u64, available: u64) -> (r: MemoryReading)
    ensures
        r == memory_of(total, available),
        r.used <= r.total,
{
    let available = if available < total { available } else { total };
    MemoryReading { used: total - available, total }
}

/// Chooses the battery percentage and state for a probe: a fallback of `0`
/// with `Unknown` or `NoBattery` when there is no reading, the clamped charge
/// otherwise.
pub fn battery_info(probe: BatteryProbe) -> (r: (u32, ChargeState))
    ensures
        r == battery_of(probe),
        r.0 <= FULL_TENTHS,
{
    match probe {
        BatteryProbe::ManagerUnavailable => (0, ChargeState::Unknown),
        BatteryProbe::ListUnavailable => (0, ChargeState::Unknown),
        BatteryProbe::NoDevice => (0, ChargeState::NoBattery),
        BatteryProbe::Device { charge_tenths, state } => (clamp_tenths(charge_tenths), state),
    }
}

/// Combines one tick's readings into a snapshot.
pub fn aggregate(readings: RawReadings) -> (r: SystemStats)
    ensures
        r == snapshot_of(readings),
        r.wf(),
{
    let mem = normalize_memory(readings.memory_total, readings.memory_available);
    let (battery_percent, battery_state) = battery_info(readings.battery);
    SystemStats {
        cpu_usage: clamp_tenths(readings.cpu_tenths),
        memory_used: mem.used,
        memory_total: mem.total,
        memory_percent: memory_percent(mem.used, mem.total),
        battery_percent,
        battery_state,
    }
}

/// For `0 < total` and `used <= total`, the memory percentage is
/// `used / total * 100` to the nearest tenth, and never above a full percent.
pub proof fn memory_percent_is_rounded_ratio(used: u64, total: u64)
    requires
        0 < total,
        used <= total,
    ensures
        memory_percent_of(used as int, total as int) <= FULL_TENTHS,
        2 * memory_percent_of(used as int, total as int) * total <= 2000 * used + total,
        2000 * used < 2 * memory_percent_of(used as int, total as int) * total + total + 1,
{
    let t = total as int;
    let u = used as int;
    let q = (u * 1000 + t / 2) / t;
    assert(q <= 1000 && q * t <= u * 1000 + t / 2 && u * 1000 + t / 2 < q * t + t)
        by (nonlinear_arith)
        requires
            0 < t,
            0 <= u <= t,
            q == (u * 1000 + t / 2) / t,
    ;
    assert(2 * q * t <= 2000 * u + t && 2000 * u < 2 * q * t + t + 1) by (nonlinear_arith)
        requires
            q * t <= u * 1000 + t / 2,
            u * 1000 + t / 2 < q * t + t,
            0 < t,
    ;
}

/// With no memory reported, the memory percentage is zero and nothing is
/// divided by zero.
pub proof fn memory_percent_without_memory(readings: RawReadings)
    requires
        readings.memory_total == 0,
    ensures
        snapshot_of(readings).memory_percent == 0,
        snapshot_of(readings).memory_used == 0,
{
}

/// Whatever the battery sensor reports, the published battery percentage lies
/// within a full percentage.
pub proof fn battery_percent_in_range(readings: RawReadings)
    ensures
        snapshot_of(readings).battery_percent <= FULL_TENTHS,
        snapshot_of(readings).wf(),
{
    let mem = memory_of(readings.memory_total, readings.memory_available);
    assert(memory_percent_of(mem.used as int, mem.total as int) <= FULL_TENTHS);
}

} // verus!
