use menu_bar_stats::{
    aggregate, battery_info, clamp_tenths, clipboard_text, collect_system_stats, format_metric,
    memory_percent, menu_metric, normalize_memory, BatteryProbe, ChargeState, LatestStats,
    MemoryReading, Metric, RawReadings, SharedStats, SystemStats, MENU_AUTOSTART, MENU_BATTERY, MENU_CPU,
    MENU_MEMORY, MENU_QUIT,
};

fn readings(cpu: i64, total: u64, available: u64, battery: BatteryProbe) -> RawReadings {
    RawReadings {
        cpu_tenths: cpu,
        memory_total: total,
        memory_available: available,
        battery,
    }
}

fn first_battery() -> BatteryProbe {
    let manager = match battery::Manager::new() {
        Ok(m) => m,
        Err(_) => return BatteryProbe::ManagerUnavailable,
    };
    let mut batteries = match manager.batteries() {
        Ok(b) => b,
        Err(_) => return BatteryProbe::ListUnavailable,
    };
    match batteries.next() {
        Some(Ok(b)) => BatteryProbe::Device {
            charge_tenths: (b.state_of_charge().value * 1000.0).round() as i64,
            state: ChargeState::from_battery_state(b.state()),
        },
        _ => BatteryProbe::NoDevice,
    }
}

#[test]
fn test_collect_system_stats_validation() {
    let mut sys = sysinfo::System::new();
    sys.refresh_cpu();
    sys.refresh_memory();

    let cpu = (sys.global_cpu_info().cpu_usage() * 10.0).round() as i64;
    let stats = collect_system_stats(&sys, cpu, first_battery());

    assert!(stats.cpu_usage <= 1000);
    assert!(stats.memory_percent <= 1000);
    assert!(stats.battery_percent <= 1000);
    assert!(stats.memory_used <= stats.memory_total);
}

#[test]
fn collected_memory_matches_the_counters() {
    let mut sys = sysinfo::System::new();
    sys.refresh_memory();
    let stats = collect_system_stats(&sys, 0, BatteryProbe::NoDevice);
    assert_eq!(stats.memory_total, sys.total_memory());
    let available = sys.available_memory().min(sys.total_memory());
    assert_eq!(stats.memory_used, sys.total_memory() - available);
    assert_eq!(
        stats.memory_percent,
        memory_percent(stats.memory_used, stats.memory_total)
    );
}

#[test]
fn memory_percent_is_the_rounded_ratio() {
    assert_eq!(memory_percent(8589934592, 17179869184), 500);
    assert_eq!(memory_percent(1, 3), 333);
    assert_eq!(memory_percent(2, 3), 667);
    assert_eq!(memory_percent(1, 2000), 1);
    assert_eq!(memory_percent(1, 2001), 0);
    assert_eq!(memory_percent(7, 7), 1000);
    assert_eq!(memory_percent(u64::MAX, u64::MAX), 1000);
    assert_eq!(memory_percent(0, u64::MAX), 0);
}

#[test]
fn memory_percent_is_zero_without_memory() {
    assert_eq!(memory_percent(0, 0), 0);
    assert_eq!(memory_percent(5, 0), 0);
    let s = aggregate(readings(100, 0, 4096, BatteryProbe::NoDevice));
    assert_eq!(s.memory_percent, 0);
    assert_eq!(s.memory_used, 0);
}

#[test]
fn memory_percent_is_clamped_above_a_full_percentage() {
    assert_eq!(memory_percent(10, 5), 1000);
}

#[test]
fn used_memory_is_total_minus_available() {
    assert_eq!(
        normalize_memory(16, 6),
        MemoryReading { used: 10, total: 16 }
    );
    assert_eq!(
        normalize_memory(16, 40),
        MemoryReading { used: 0, total: 16 }
    );
    assert_eq!(normalize_memory(0, 0), MemoryReading { used: 0, total: 0 });
}

#[test]
fn raw_percentages_are_clamped() {
    assert_eq!(clamp_tenths(-1), 0);
    assert_eq!(clamp_tenths(i64::MIN), 0);
    assert_eq!(clamp_tenths(0), 0);
    assert_eq!(clamp_tenths(853), 853);
    assert_eq!(clamp_tenths(1000), 1000);
    assert_eq!(clamp_tenths(1001), 1000);
    assert_eq!(clamp_tenths(i64::MAX), 1000);
}

#[test]
fn battery_fallbacks() {
    assert_eq!(
        battery_info(BatteryProbe::ManagerUnavailable),
        (0, ChargeState::Unknown)
    );
    assert_eq!(
        battery_info(BatteryProbe::ListUnavailable),
        (0, ChargeState::Unknown)
    );
    assert_eq!(
        battery_info(BatteryProbe::NoDevice),
        (0, ChargeState::NoBattery)
    );
    assert_eq!(
        battery_info(BatteryProbe::Device {
            charge_tenths: 853,
            state: ChargeState::Charging
        }),
        (853, ChargeState::Charging)
    );
}

#[test]
fn out_of_range_battery_readings_are_clamped() {
    let high = aggregate(readings(
        0,
        0,
        0,
        BatteryProbe::Device {
            charge_tenths: 1042,
            state: ChargeState::Full,
        },
    ));
    assert_eq!(high.battery_percent, 1000);
    assert_eq!(high.battery_state, ChargeState::Full);
    let low = aggregate(readings(
        0,
        0,
        0,
        BatteryProbe::Device {
            charge_tenths: -3,
            state: ChargeState::Empty,
        },
    ));
    assert_eq!(low.battery_percent, 0);
}

#[test]
fn aggregate_builds_the_end_to_end_snapshot() {
    let s = aggregate(readings(
        457,
        17179869184,
        8589934592,
        BatteryProbe::Device {
            charge_tenths: 853,
            state: ChargeState::Charging,
        },
    ));
    assert_eq!(
        s,
        SystemStats {
            cpu_usage: 457,
            memory_used: 8589934592,
            memory_total: 17179869184,
            memory_percent: 500,
            battery_percent: 853,
            battery_state: ChargeState::Charging,
        }
    );
    let cpu_high = aggregate(readings(1500, 10, 20, BatteryProbe::ListUnavailable));
    assert_eq!(cpu_high.cpu_usage, 1000);
    assert_eq!(cpu_high.memory_used, 0);
    assert_eq!(cpu_high.memory_percent, 0);
    assert_eq!(cpu_high.battery_state, ChargeState::Unknown);
}

fn sample() -> SystemStats {
    SystemStats {
        cpu_usage: 457,
        memory_used: 8589934592,
        memory_total: 17179869184,
        memory_percent: 500,
        battery_percent: 853,
        battery_state: ChargeState::Charging,
    }
}

#[test]
fn menu_ids_name_metrics() {
    assert_eq!(menu_metric("battery"), Some(Metric::Battery));
    assert_eq!(menu_metric("cpu"), Some(Metric::Cpu));
    assert_eq!(menu_metric("memory"), Some(Metric::Memory));
    assert_eq!(menu_metric("quit"), None);
    assert_eq!(menu_metric(""), None);
    assert_eq!(menu_metric(MENU_BATTERY), Some(Metric::Battery));
    assert_eq!(menu_metric(MENU_CPU), Some(Metric::Cpu));
    assert_eq!(menu_metric(MENU_MEMORY), Some(Metric::Memory));
    assert_eq!(menu_metric(MENU_AUTOSTART), None);
    assert_eq!(menu_metric(MENU_QUIT), None);
}

#[test]
fn click_before_the_first_tick_copies_nothing() {
    let cell = LatestStats::new();
    assert_eq!(cell.read_latest(), None);
    assert_eq!(clipboard_text("battery", cell.read_latest()), None);
    assert_eq!(clipboard_text("cpu", cell.read_latest()), None);
    assert_eq!(clipboard_text("memory", cell.read_latest()), None);
}

#[test]
fn click_copies_the_metric() {
    let latest = Some(sample());
    assert_eq!(clipboard_text("battery", latest), Some("85%".to_string()));
    assert_eq!(clipboard_text("cpu", latest), Some("45.7%".to_string()));
    assert_eq!(clipboard_text("memory", latest), Some("50.0%".to_string()));
    assert_eq!(clipboard_text("autostart", latest), None);
    assert_eq!(format_metric(Metric::Cpu, &sample()), "45.7%");
}

#[test]
fn publish_replaces_the_whole_snapshot() {
    let mut cell = LatestStats::new();
    let first = sample();
    cell.publish(first);
    assert_eq!(cell.read_latest(), Some(first));
    let second = SystemStats {
        cpu_usage: 12,
        memory_used: 1,
        memory_total: 2,
        memory_percent: 500,
        battery_percent: 0,
        battery_state: ChargeState::NoBattery,
    };
    cell.publish(second);
    assert_eq!(cell.read_latest(), Some(second));
    assert_eq!(clipboard_text("cpu", cell.read_latest()), Some("1.2%".to_string()));
}

fn shareable<T: Send + Sync>(_: &T) {}

#[test]
fn shared_cell_hands_out_whole_snapshots() {
    let shared = SharedStats::new();
    shareable(&shared);
    assert_eq!(shared.read_latest(), None);
    assert_eq!(clipboard_text("memory", shared.read_latest()), None);
    let first = sample();
    assert!(first.is_consistent());
    shared.publish(first);
    assert_eq!(shared.read_latest(), Some(first));
    let second = aggregate(readings(5, 100, 25, BatteryProbe::NoDevice));
    shared.publish(second);
    assert_eq!(shared.read_latest(), Some(second));
    assert_eq!(clipboard_text("memory", shared.read_latest()), Some("75.0%".to_string()));
}

#[test]
fn consistency_of_snapshots() {
    assert!(aggregate(readings(-20, 7, 3, BatteryProbe::ListUnavailable)).is_consistent());
    let mut torn = sample();
    torn.memory_total = 4;
    assert!(!torn.is_consistent());
    let mut wrong_percent = sample();
    wrong_percent.memory_percent = 499;
    assert!(!wrong_percent.is_consistent());
    let mut high_cpu = sample();
    high_cpu.cpu_usage = 1001;
    assert!(!high_cpu.is_consistent());
}
