//! The latest-value cell that the updater publishes to and readers copy from,
//! and the texts that one tick pushes to the tray and the menu.
use crate::stats::SystemStats;
use crate::text::{
    battery_text, cpu_text, format_battery_text, format_cpu_text, format_memory_text,
    format_tray_title, memory_text, tray_title_text,
};
use vstd::prelude::*;
use vstd::rwlock::{RwLock, RwLockPredicate};

verus! {

/// Holds the most recent snapshot, or none before the first tick: a
/// latest-value cache that keeps no history. `publish` replaces the snapshot
/// as a whole and `read_latest` hands out a whole copy; `SharedStats` puts it
/// behind a lock for concurrent use.
pub struct LatestStats {
    slot: Option<SystemStats>,
}

impl View for LatestStats {
    type V = Option<SystemStats>;

    closed spec fn view(&self) -> Option<SystemStats> {
        self.slot
    }
}

impl LatestStats {
    /// An empty cell: no snapshot yet.
    pub fn new() -> (r: LatestStats)
        ensures
            r@ is None,
    {
        LatestStats { slot: None }
    }

    /// Replaces the held snapshot, if any, by `stats`.
    pub fn publish(&mut self, stats: SystemStats)
        ensures
            final(self)@ == Some(stats),
    {
        self.slot = Some(stats);
    }

    /// A copy of the held snapshot.
    pub fn read_latest(&self) -> (r: Option<SystemStats>)
        ensures
            r == self@,
    {
        self.slot
    }
}

/// What the shared cell may hold: nothing yet, or one whole snapshot as the
/// aggregator builds it.
pub struct WholeSnapshot;

impl RwLockPredicate<LatestStats> for WholeSnapshot {
    open spec fn inv(self, cell: LatestStats) -> bool {
        cell.holds_whole_snapshot()
    }
}

impl LatestStats {
    /// Empty, or holding a snapshot that satisfies the aggregator's guarantees.
    pub open spec fn holds_whole_snapshot(self) -> bool {
        self@ is Some ==> self@->Some_0.wf()
    }
}

/// The cell shared between the updater and any number of readers, behind a
/// readers-writer lock held only to copy a snapshot in or out.
///
/// A reader never sees a partly written snapshot: it copies out either the
/// snapshot held before a publish or the one held after it, whole.
pub struct SharedStats {
    lock: RwLock<LatestStats, WholeSnapshot>,
}

impl SharedStats {
    /// A shared cell with no snapshot yet.
    pub fn new() -> (r: SharedStats) {
        SharedStats { lock: RwLock::new(LatestStats::new(), Ghost(WholeSnapshot)) }
    }

    /// Replaces the shared snapshot by `stats`, under the write lock.
    pub fn publish(&self, stats: SystemStats)
        requires
            stats.wf(),
    {
        let (mut cell, handle) = self.lock.acquire_write();
        cell.publish(stats);
        handle.release_write(cell);
    }

    /// A copy of the shared snapshot, taken under the read lock: nothing
    /// before the first publish, otherwise one whole snapshot.
    pub fn read_latest(&self) -> (r: Option<SystemStats>)
        ensures
            r is Some ==> r->Some_0.wf(),
    {
        let handle = self.lock.acquire_read();
        let r = handle.borrow().read_latest();
        handle.release_read();
        r
    }
}

/// The four texts that a tick pushes: the tray title and the three menu labels.
pub struct SinkTexts {
    pub tray_title: String,
    pub battery: String,
    pub cpu: String,
    pub memory: String,
}

impl SinkTexts {
    /// Whether these are the texts of snapshot `s`.
    pub open spec fn of(self, s: SystemStats) -> bool {
        &&& self.tray_title@ == tray_title_text(s)
        &&& self.battery@ == battery_text(s)
        &&& self.cpu@ == cpu_text(s)
        &&& self.memory@ == memory_text(s)
    }
}

/// Formats every text that the tray and the menu show for a snapshot.
pub fn sink_texts(stats: &SystemStats) -> (r: SinkTexts)
    ensures
        r.of(*stats),
{
    SinkTexts {
        tray_title: format_tray_title(stats),
        battery: format_battery_text(stats),
        cpu: format_cpu_text(stats),
        memory: format_memory_text(stats),
    }
}

/// Formatting is a function of the snapshot alone: two formattings of the same
/// snapshot give the same texts.
pub proof fn formatting_is_repeatable(s: SystemStats, first: SinkTexts, second: SinkTexts)
    requires
        first.of(s),
        second.of(s),
    ensures
        first.tray_title@ == second.tray_title@,
        first.battery@ == second.battery@,
        first.cpu@ == second.cpu@,
        first.memory@ == second.memory@,
{
}

} // verus!
