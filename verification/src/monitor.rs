//! The sampling core: one tick takes a reading of the system to the process
//! table, the six series and the advisories.

use vstd::prelude::*;
use crate::models::{
    action_for, recorded, settings_after, Action, AggregateSample, IoSnapshot, Message, ProcRow,
    ProcRowView, SettingsModel, SettingsView, Suggestion, SuggestionText, SystemGraphs,
    SystemGraphsView, PERCENT_SCALE,
};
use crate::platform::MonitorError;
use crate::suggestions::{make_suggestions, suggestions_for};
use crate::table::{arranged, filtered_sorted_rows, is_table_order, lowered_names};
use crate::text::{lowercase_of, trimmed};
use crate::system_monitor::{
    bytes_per_sec, cap_rate, capped, io_rates, lemma_sum_any_order, pruned, rate_per_sec,
    read_counters, received_counters,
    sum, total_disk_bytes, total_net_bytes, transmitted_counters, written_counters,
    IoCounterCache, NetReading, ProcReadingView, SystemReading, SystemReadingView,
};

verus! {

/// What a monitor holds.
pub struct MonitorView {
    pub last_io: Map<i32, IoSnapshot>,
    pub last_net: NetReading,
    pub last_disk: IoSnapshot,
    pub procs: Seq<ProcRowView>,
    pub graphs: SystemGraphsView,
    pub settings: SettingsView,
    pub suggestions: Seq<SuggestionText>,
}

/// The counters of a process reading.
pub open spec fn snapshot_of(p: ProcReadingView) -> IoSnapshot {
    IoSnapshot { read: p.total_read_bytes, write: p.total_written_bytes }
}

/// The counter cache after the readings of `processes` went into it in order.
pub open spec fn cache_after(cache: Map<i32, IoSnapshot>, processes: Seq<ProcReadingView>) -> Map<
    i32,
    IoSnapshot,
>
    decreases processes.len(),
{
    if processes.len() == 0 {
        cache
    } else {
        cache_after(cache, processes.drop_last()).insert(
            processes.last().pid,
            snapshot_of(processes.last()),
        )
    }
}

/// The table row of a process reading, its rates taken against `cache`.
pub open spec fn row_of(cache: Map<i32, IoSnapshot>, p: ProcReadingView, dt_ms: u64) -> ProcRowView {
    let rates = io_rates(cache, p.pid, snapshot_of(p), dt_ms);
    ProcRowView {
        pid: p.pid,
        name: p.name,
        cpu: p.cpu,
        mem_bytes: p.mem_bytes,
        read_bps: rates.0,
        write_bps: rates.1,
    }
}

/// The process table of a reading: one row per process, in order, each with
/// its rates against the cache as the processes before it left it.
pub open spec fn rows_of(cache: Map<i32, IoSnapshot>, processes: Seq<ProcReadingView>, dt_ms: u64) -> Seq<
    ProcRowView,
> {
    Seq::new(
        processes.len(),
        |i: int| row_of(cache_after(cache, processes.take(i)), processes[i], dt_ms),
    )
}

/// Bytes read and written by all processes of a reading, capped.
pub open spec fn disk_totals(processes: Seq<ProcReadingView>) -> IoSnapshot {
    IoSnapshot {
        read: capped(sum(read_counters(processes))),
        write: capped(sum(written_counters(processes))),
    }
}

/// Bytes received and transmitted over all interfaces of a reading, capped.
pub open spec fn net_totals(networks: Seq<NetReading>) -> NetReading {
    NetReading {
        total_received: capped(sum(received_counters(networks))),
        total_transmitted: capped(sum(transmitted_counters(networks))),
    }
}

/// Memory in use as a share of all memory, in thousandths of a percent. A
/// host that reports no memory at all counts as having one byte.
pub open spec fn memory_percent(used: u64, total: u64) -> u64 {
    capped(
        (used * 100 * PERCENT_SCALE / (if total == 0 {
            1
        } else {
            total as int
        })) as nat,
    )
}

/// The system-wide figures of a tick.
pub open spec fn aggregate_of(s: MonitorView, r: SystemReadingView, dt_ms: u64) -> AggregateSample {
    let disk = disk_totals(r.processes);
    let net = net_totals(r.networks);
    AggregateSample {
        cpu_percent: r.cpu,
        memory_percent: memory_percent(r.used_memory, r.total_memory),
        disk_read_bps: capped(
            rate_per_sec(s.last_disk.read as nat, disk.read as nat, dt_ms as nat),
        ),
        disk_write_bps: capped(
            rate_per_sec(s.last_disk.write as nat, disk.write as nat, dt_ms as nat),
        ),
        net_rx_bps: capped(
            rate_per_sec(s.last_net.total_received as nat, net.total_received as nat, dt_ms as nat),
        ),
        net_tx_bps: capped(
            rate_per_sec(
                s.last_net.total_transmitted as nat,
                net.total_transmitted as nat,
                dt_ms as nat,
            ),
        ),
    }
}

/// The process identifier of each row, in order.
pub open spec fn pids_of(rows: Seq<ProcRowView>) -> Seq<i32> {
    Seq::new(rows.len(), |i: int| rows[i].pid)
}

/// A figure as the advisory rules see it: zero where its alert is switched off.
pub open spec fn gated(on: bool, value: u64) -> u64 {
    if on {
        value
    } else {
        0
    }
}

/// The monitor after a tick on the reading `r`, taken `dt_ms` milliseconds
/// after the one before.
pub open spec fn ticked(s: MonitorView, r: SystemReadingView, dt_ms: u64) -> MonitorView {
    let sample = aggregate_of(s, r, dt_ms);
    let rows = rows_of(s.last_io, r.processes, dt_ms);
    MonitorView {
        last_io: cache_after(s.last_io, r.processes),
        last_net: net_totals(r.networks),
        last_disk: disk_totals(r.processes),
        procs: rows,
        graphs: recorded(s.graphs, sample),
        settings: s.settings,
        suggestions: suggestions_for(
            rows,
            gated(s.settings.alerts_on_cpu, sample.cpu_percent),
            gated(s.settings.alerts_on_mem, sample.memory_percent),
            s.settings.thresholds,
        ),
    }
}

/// Whether the processes of the host were listed: there is a reading, and it
/// holds at least one process, as every running host does.
pub open spec fn is_listing(reading: Option<&SystemReading>) -> bool {
    reading matches Some(r) && r.processes.len() > 0
}

/// A monitor that has not sampled yet.
pub open spec fn initial(settings: SettingsView) -> MonitorView {
    MonitorView {
        last_io: Map::empty(),
        last_net: NetReading { total_received: 0, total_transmitted: 0 },
        last_disk: IoSnapshot { read: 0, write: 0 },
        procs: Seq::empty(),
        graphs: SystemGraphsView {
            cpu: Seq::empty(),
            mem: Seq::empty(),
            disk_read: Seq::empty(),
            disk_write: Seq::empty(),
            net_rx: Seq::empty(),
            net_tx: Seq::empty(),
        },
        settings,
        suggestions: Seq::empty(),
    }
}

/// Whether no process identifier occurs twice among `processes`, as in any
/// one listing of the processes of a host.
pub open spec fn distinct_pids(processes: Seq<ProcReadingView>) -> bool {
    forall|i: int, j: int|
        0 <= i < j < processes.len() ==> (#[trigger] processes[i]).pid != (
        #[trigger] processes[j]).pid
}

/// An identifier that is not among `processes` has in the cache after them
/// what it had before.
proof fn lemma_cache_after_keeps(
    cache: Map<i32, IoSnapshot>,
    processes: Seq<ProcReadingView>,
    pid: i32,
)
    requires
        forall|j: int| 0 <= j < processes.len() ==> (#[trigger] processes[j]).pid != pid,
    ensures
        cache_after(cache, processes).contains_key(pid) == cache.contains_key(pid),
        cache.contains_key(pid) ==> cache_after(cache, processes)[pid] == cache[pid],
    decreases processes.len(),
{
    if processes.len() > 0 {
        lemma_cache_after_keeps(cache, processes.drop_last(), pid);
    }
}

/// After readings with distinct identifiers went into the cache, it holds
/// for each of them its own counters.
proof fn lemma_cache_after_holds(
    cache: Map<i32, IoSnapshot>,
    processes: Seq<ProcReadingView>,
    i: int,
)
    requires
        distinct_pids(processes),
        0 <= i < processes.len(),
    ensures
        cache_after(cache, processes).contains_key(processes[i].pid),
        cache_after(cache, processes)[processes[i].pid] == snapshot_of(processes[i]),
    decreases processes.len(),
{
    if i < processes.len() - 1 {
        lemma_cache_after_holds(cache, processes.drop_last(), i);
    }
}

/// The identifier and the two byte counters of each process, in order.
pub open spec fn counter_entries(processes: Seq<ProcReadingView>) -> Seq<(i32, IoSnapshot)> {
    Seq::new(processes.len(), |i: int| (processes[i].pid, snapshot_of(processes[i])))
}

/// Whether two readings hold the same counters, in whatever order each lists
/// them: the same processes by identifier, each with the same two byte
/// counters, and the same interface counters equally often. Names, loads and
/// memory may differ.
pub open spec fn same_counters(a: SystemReadingView, b: SystemReadingView) -> bool {
    &&& counter_entries(a.processes).to_multiset() == counter_entries(b.processes).to_multiset()
    &&& a.networks.to_multiset() == b.networks.to_multiset()
}

/// A tick on the counters of the tick before shows no activity: where the
/// second reading holds the same counters as the first, in whatever order,
/// and neither lists a process identifier twice, every row of the second
/// tick has both its rates zero, and so are the four system-wide rates,
/// whatever the monitor held before and however long the two ticks took.
pub proof fn lemma_same_counters_give_zero_rates(
    s: MonitorView,
    r1: SystemReadingView,
    r2: SystemReadingView,
    dt1: u64,
    dt2: u64,
)
    requires
        distinct_pids(r1.processes),
        distinct_pids(r2.processes),
        same_counters(r1, r2),
    ensures
        ({
            let first = ticked(s, r1, dt1);
            let sample = aggregate_of(first, r2, dt2);
            let second = ticked(first, r2, dt2);
            &&& sample.disk_read_bps == 0
            &&& sample.disk_write_bps == 0
            &&& sample.net_rx_bps == 0
            &&& sample.net_tx_bps == 0
            &&& second.procs.len() == r2.processes.len()
            &&& forall|i: int|
                0 <= i < second.procs.len() ==> (#[trigger] second.procs[i]).read_bps == 0
                    && second.procs[i].write_bps == 0
        }),
{
    let first = ticked(s, r1, dt1);
    let second = ticked(first, r2, dt2);
    let e1 = counter_entries(r1.processes);
    let e2 = counter_entries(r2.processes);

    // The same counters add up to the same totals, in any order.
    let read = |e: (i32, IoSnapshot)| e.1.read;
    let written = |e: (i32, IoSnapshot)| e.1.write;
    let received = |n: NetReading| n.total_received;
    let transmitted = |n: NetReading| n.total_transmitted;
    lemma_sum_any_order(e1, e2, read);
    lemma_sum_any_order(e1, e2, written);
    lemma_sum_any_order(r1.networks, r2.networks, received);
    lemma_sum_any_order(r1.networks, r2.networks, transmitted);
    assert(read_counters(r1.processes) =~= e1.map_values(read));
    assert(read_counters(r2.processes) =~= e2.map_values(read));
    assert(written_counters(r1.processes) =~= e1.map_values(written));
    assert(written_counters(r2.processes) =~= e2.map_values(written));
    assert(received_counters(r1.networks) =~= r1.networks.map_values(received));
    assert(received_counters(r2.networks) =~= r2.networks.map_values(received));
    assert(transmitted_counters(r1.networks) =~= r1.networks.map_values(transmitted));
    assert(transmitted_counters(r2.networks) =~= r2.networks.map_values(transmitted));

    assert forall|i: int| 0 <= i < second.procs.len() implies (#[trigger] second.procs[i]).read_bps
        == 0 && second.procs[i].write_bps == 0 by {
        // The process of this row stood somewhere in the first reading with
        // the same counters, which the first tick left in the cache; and the
        // rows ahead of it in the second tick are of other processes.
        let p = r2.processes[i];
        assert(e2[i] == (p.pid, snapshot_of(p)));
        vstd::seq_lib::to_multiset_contains(e2, e2[i]);
        vstd::seq_lib::to_multiset_contains(e1, e2[i]);
        let j = choose|j: int| 0 <= j < e1.len() && e1[j] == e2[i];
        assert(e1[j] == (r1.processes[j].pid, snapshot_of(r1.processes[j])));
        lemma_cache_after_holds(s.last_io, r1.processes, j);
        let seen = r2.processes.take(i);
        assert forall|k: int| 0 <= k < seen.len() implies (#[trigger] seen[k]).pid != p.pid by {
            assert(seen[k] == r2.processes[k]);
        }
        lemma_cache_after_keeps(first.last_io, seen, p.pid);
    }
}

/// The sampling core. It owns the counter cache, the baselines of the disk
/// and network totals, the series, and the table and advisories of the last tick.
#[derive(Debug, Clone)]
pub struct Monitor {
    last_io: IoCounterCache,
    last_net: NetReading,
    last_disk: IoSnapshot,
    procs: Vec<ProcRow>,
    graphs: SystemGraphs,
    settings: SettingsModel,
    suggestions: Vec<Suggestion>,
}

impl View for Monitor {
    type V = MonitorView;

    closed spec fn view(&self) -> MonitorView {
        MonitorView {
            last_io: self.last_io@,
            last_net: self.last_net,
            last_disk: self.last_disk,
            procs: self.procs.deep_view(),
            graphs: self.graphs@,
            settings: self.settings@,
            suggestions: self.suggestions.deep_view(),
        }
    }
}

/// Memory in use as a share of all memory, in thousandths of a percent.
pub fn percent_of_memory(used: u64, total: u64) -> (pct: u64)
    ensures
        pct == memory_percent(used, total),
{
    let total: u128 = if total == 0 {
        1
    } else {
        total as u128
    };
    let per_whole: u128 = 100 * PERCENT_SCALE as u128;
    assert(per_whole == 100_000);
    cap_rate(used as u128 * per_whole / total)
}

impl Monitor {
    /// A monitor with the given settings that has not sampled yet.
    pub fn new(settings: SettingsModel) -> (monitor: Self)
        ensures
            monitor@ == initial(settings@),
    {
        let monitor = Monitor {
            last_io: IoCounterCache::new(),
            last_net: NetReading { total_received: 0, total_transmitted: 0 },
            last_disk: IoSnapshot { read: 0, write: 0 },
            procs: Vec::new(),
            graphs: SystemGraphs::default(),
            settings,
            suggestions: Vec::new(),
        };
        assert(monitor.procs.deep_view() =~= Seq::<ProcRowView>::empty());
        assert(monitor.suggestions.deep_view() =~= Seq::<SuggestionText>::empty());
        monitor
    }

    /// The process table of the last tick.
    pub fn procs(&self) -> (rows: &Vec<ProcRow>)
        ensures
            rows.deep_view() == self@.procs,
    {
        &self.procs
    }

    /// The six series.
    pub fn graphs(&self) -> (graphs: &SystemGraphs)
        ensures
            graphs@ == self@.graphs,
    {
        &self.graphs
    }

    /// The settings in force.
    pub fn settings(&self) -> (settings: &SettingsModel)
        ensures
            settings@ == self@.settings,
    {
        &self.settings
    }

    /// The advisories of the last tick.
    pub fn suggestions(&self) -> (advice: &Vec<Suggestion>)
        ensures
            advice.deep_view() == self@.suggestions,
    {
        &self.suggestions
    }

    /// Forgets the counters of every process that the last tick did not
    /// see. Without it the counter cache grows with every process identifier
    /// that ever was in use.
    pub fn prune(&mut self)
        ensures
            final(self)@ == (MonitorView {
                last_io: pruned(old(self)@.last_io, pids_of(old(self)@.procs)),
                ..old(self)@
            }),
    {
        let mut live: Vec<i32> = Vec::with_capacity(self.procs.len());
        let mut i: usize = 0;
        while i < self.procs.len()
            invariant
                i <= self.procs.len(),
                live.len() == i,
                forall|k: int| 0 <= k < i ==> (#[trigger] live[k]) == self.procs[k].pid,
            decreases self.procs.len() - i,
        {
            live.push(self.procs[i].pid);
            i = i + 1;
        }
        assert(live@ =~= pids_of(self@.procs));
        self.last_io.prune(live.as_slice());
    }

    /// The rows of the last tick to show under the settings in force:
    /// those that the filter finds, in the chosen order.
    pub fn filtered_sorted_rows(&self) -> (out: Vec<ProcRow>)
        ensures
            exists|order: Seq<usize>|
                is_table_order(
                    self@.procs,
                    lowered_names(self@.procs),
                    lowercase_of(trimmed(self@.settings.filter)),
                    self@.settings.sort_key,
                    self@.settings.sort_dir,
                    order,
                ) && out.deep_view() == arranged(self@.procs, order),
    {
        let rows = self.procs.as_slice();
        let out = filtered_sorted_rows(rows, &self.settings);
        proof {
            let order = choose|order: Seq<usize>|
                is_table_order(
                    rows.deep_view(),
                    lowered_names(rows.deep_view()),
                    lowercase_of(trimmed(self.settings.filter@)),
                    self.settings.sort_key,
                    self.settings.sort_dir,
                    order,
                ) && out.deep_view() == arranged(rows.deep_view(), order);
            assert(is_table_order(
                self@.procs,
                lowered_names(self@.procs),
                lowercase_of(trimmed(self@.settings.filter)),
                self@.settings.sort_key,
                self@.settings.sort_dir,
                order,
            ));
        }
        out
    }

    /// Takes in one event. A choice of the operator changes the settings;
    /// table, series and advisories stay as they are until the next tick.
    /// What the event asks of the operating system is returned for the
    /// caller to carry out.
    pub fn update(&mut self, message: Message) -> (action: Action)
        ensures
            final(self)@ == (MonitorView {
                settings: settings_after(old(self)@.settings, message@),
                ..old(self)@
            }),
            action@ == action_for(old(self)@.settings, message@),
    {
        self.settings.update(message)
    }

    /// Takes one reading of the system, `dt_ms` milliseconds after the one
    /// before: every process gets its row with its I/O rates, the system-wide
    /// figures go to the six series, and the advisory rules run on the new
    /// table. The counter cache and the two baselines move on to this reading.
    pub fn refresh_now(&mut self, reading: &SystemReading, dt_ms: u64) -> (sample: AggregateSample)
        ensures
            sample == aggregate_of(old(self)@, reading@, dt_ms),
            final(self)@ == ticked(old(self)@, reading@, dt_ms),
    {
        let ghost before = self@;
        let ghost processes = reading@.processes;
        let mem_pct = percent_of_memory(reading.used_memory, reading.total_memory);
        let (disk_r_total, disk_w_total) = total_disk_bytes(reading);
        let disk_r_bps = cap_rate(bytes_per_sec(self.last_disk.read, disk_r_total, dt_ms));
        let disk_w_bps = cap_rate(bytes_per_sec(self.last_disk.write, disk_w_total, dt_ms));
        self.last_disk = IoSnapshot { read: disk_r_total, write: disk_w_total };
        let (net_rx_total, net_tx_total) = total_net_bytes(&reading.networks);
        let net_rx_bps = cap_rate(bytes_per_sec(self.last_net.total_received, net_rx_total, dt_ms));
        let net_tx_bps = cap_rate(
            bytes_per_sec(self.last_net.total_transmitted, net_tx_total, dt_ms),
        );
        self.last_net = NetReading { total_received: net_rx_total, total_transmitted: net_tx_total };
        let sample = AggregateSample {
            cpu_percent: reading.cpu,
            memory_percent: mem_pct,
            disk_read_bps: disk_r_bps,
            disk_write_bps: disk_w_bps,
            net_rx_bps,
            net_tx_bps,
        };
        self.graphs.record(&sample);

        let mut rows: Vec<ProcRow> = Vec::with_capacity(reading.processes.len());
        let mut i: usize = 0;
        while i < reading.processes.len()
            invariant
                i <= reading.processes.len(),
                processes == reading@.processes,
                processes.len() == reading.processes.len(),
                self.last_io@ == cache_after(before.last_io, processes.take(i as int)),
                rows.len() == i,
                forall|j: int|
                    0 <= j < i ==> (#[trigger] rows[j])@ == row_of(
                        cache_after(before.last_io, processes.take(j)),
                        processes[j],
                        dt_ms,
                    ),
                self.last_net == net_totals(reading@.networks),
                self.last_disk == disk_totals(processes),
                self.graphs@ == recorded(before.graphs, sample),
                self.settings@ == before.settings,
            decreases reading.processes.len() - i,
        {
            let p = &reading.processes[i];
            assert(processes.take(i + 1).drop_last() =~= processes.take(i as int));
            let (read_bps, write_bps) = self.last_io.update(
                p.pid,
                p.total_read_bytes,
                p.total_written_bytes,
                dt_ms,
            );
            rows.push(
                ProcRow {
                    pid: p.pid,
                    name: p.name.clone(),
                    cpu: p.cpu,
                    mem_bytes: p.mem_bytes,
                    read_bps,
                    write_bps,
                },
            );
            i = i + 1;
        }
        assert(processes.take(i as int) =~= processes);
        assert(rows.deep_view() =~= rows_of(before.last_io, processes, dt_ms));
        self.procs = rows;
        let cpu_seen = if self.settings.alerts_on_cpu {
            sample.cpu_percent
        } else {
            0
        };
        let mem_seen = if self.settings.alerts_on_mem {
            sample.memory_percent
        } else {
            0
        };
        self.suggestions = make_suggestions(
            self.procs.as_slice(),
            cpu_seen,
            mem_seen,
            &self.settings.thresholds,
        );
        sample
    }

    /// One tick. A reading that lists at least one process takes the monitor
    /// on as in `refresh_now`. Where there is no reading, or one that lists no
    /// process at all, the processes could not be listed: the monitor stays as
    /// it was, table, series and baselines included, and the failure is returned.
    pub fn tick(&mut self, reading: Option<&SystemReading>, dt_ms: u64) -> (outcome: Result<
        AggregateSample,
        MonitorError,
    >)
        ensures
            is_listing(reading) ==> outcome == Ok::<AggregateSample, MonitorError>(
                aggregate_of(old(self)@, reading->0@, dt_ms),
            ) && final(self)@ == ticked(old(self)@, reading->0@, dt_ms),
            !is_listing(reading) ==> outcome == Err::<AggregateSample, MonitorError>(
                MonitorError::EnumerationFailed,
            ) && final(self)@ == old(self)@,
    {
        match reading {
            Some(r) => {
                if r.processes.len() > 0 {
                    Ok(self.refresh_now(r, dt_ms))
                } else {
                    Err(MonitorError::EnumerationFailed)
                }
            },
            None => Err(MonitorError::EnumerationFailed),
        }
    }
}

} // verus!
