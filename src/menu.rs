//! Menu identifiers and what a click on a metric copies.
use crate::stats::SystemStats;
use crate::text::{
    decimal, push_decimal, push_tenths, rounded_percent, same_text, tenths_text, whole_percent,
};
use vstd::prelude::*;

verus! {

/// Seconds between two ticks of the updater.
pub const UPDATE_INTERVAL_SECS: u64 = 3;

/// Identifier of the tray icon.
pub const TRAY_ID: &'static str = "menu_bar_stats_tray";

pub const MENU_BATTERY: &'static str = "battery";

pub const MENU_CPU: &'static str = "cpu";

pub const MENU_MEMORY: &'static str = "memory";

pub const MENU_AUTOSTART: &'static str = "autostart";

pub const MENU_QUIT: &'static str = "quit";

/// A metric that a menu item shows and a click copies.
#[derive(Clone, Copy, Debug, PartialEq, Eq, Structural)]
pub enum Metric {
    Battery,
    Cpu,
    Memory,
}

/// The metric that a menu item identifier names, if any: the identifiers are
/// those of `MENU_BATTERY`, `MENU_CPU` and `MENU_MEMORY`.
pub open spec fn metric_of(id: Seq<char>) -> Option<Metric> {
    if id == "battery"@ {
        Some(Metric::Battery)
    } else if id == "cpu"@ {
        Some(Metric::Cpu)
    } else if id == "memory"@ {
        Some(Metric::Memory)
    } else {
        None
    }
}

/// The clipboard text for one metric of a snapshot.
pub open spec fn metric_payload(m: Metric, s: SystemStats) -> Seq<char> {
    match m {
        Metric::Battery => decimal(whole_percent(s.battery_percent)) + "%"@,
        Metric::Cpu => tenths_text(s.cpu_usage as nat) + "%"@,
        Metric::Memory => tenths_text(s.memory_percent as nat) + "%"@,
    }
}

/// What a click on the item `id` copies, given the latest snapshot: nothing
/// before the first snapshot, nothing for an item that names no metric.
pub open spec fn click_payload(id: Seq<char>, latest: Option<SystemStats>) -> Option<Seq<char>> {
    match (latest, metric_of(id)) {
        (Some(s), Some(m)) => Some(metric_payload(m, s)),
        _ => None,
    }
}

/// The metric that a menu item identifier names.
pub fn menu_metric(id: &str) -> (r: Option<Metric>)
    ensures
        r == metric_of(id@),
{
    if same_text(id, "battery") {
        Some(Metric::Battery)
    } else if same_text(id, "cpu") {
        Some(Metric::Cpu)
    } else if same_text(id, "memory") {
        Some(Metric::Memory)
    } else {
        None
    }
}

/// The clipboard text for one metric of a snapshot.
pub fn format_metric(metric: Metric, stats: &SystemStats) -> (r: String)
    ensures
        r@ == metric_payload(metric, *stats),
{
    let mut s = String::new();
    match metric {
        Metric::Battery => push_decimal(&mut s, rounded_percent(stats.battery_percent)),
        Metric::Cpu => push_tenths(&mut s, stats.cpu_usage as u64),
        Metric::Memory => push_tenths(&mut s, stats.memory_percent as u64),
    }
    s.append("%");
    assert(s@ =~= metric_payload(metric, *stats));
    s
}

/// Decides what a click on the menu item `event_id` writes to the clipboard,
/// given a copy of the latest snapshot: `None` when no snapshot has been
/// published yet or the item names no metric, the metric's text otherwise.
pub fn clipboard_text(event_id: &str, latest: Option<SystemStats>) -> (r: Option<String>)
    ensures
        match r {
            Some(t) => click_payload(event_id@, latest) == Some(t@),
            None => click_payload(event_id@, latest) is None,
        },
{
    let stats = match latest {
        Some(s) => s,
        None => {
            return None;
        },
    };
    match menu_metric(event_id) {
        Some(m) => Some(format_metric(m, &stats)),
        None => None,
    }
}

} // verus!
