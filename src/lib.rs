//! Sampling, aggregation and presentation state for a menu-bar system monitor.
//!
//! Percentages are carried as tenths of a percent (`0..=1000`), so that every
//! value the menu bar shows is held exactly and every rule on it can be proved.
pub mod cell;
pub mod menu;
pub mod sensors;
pub mod stats;
pub mod text;

pub use cell::{sink_texts, LatestStats, SharedStats, SinkTexts};
pub use menu::{
    clipboard_text, format_metric, menu_metric, Metric, MENU_AUTOSTART, MENU_BATTERY, MENU_CPU,
    MENU_MEMORY, MENU_QUIT, TRAY_ID, UPDATE_INTERVAL_SECS,
};
pub use sensors::collect_system_stats;
pub use stats::{
    aggregate, battery_info, clamp_tenths, memory_percent, normalize_memory, BatteryProbe,
    ChargeState, MemoryReading, RawReadings, SystemStats,
};
pub use text::{
    bytes_to_gb, format_battery_state, format_battery_text, format_cpu_text, format_memory_text,
    format_tray_title, BYTES_TO_GB,
};
