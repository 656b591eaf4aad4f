//! The data model: configuration, process rows, bounded series and advisories.

use std::collections::VecDeque;
use vstd::prelude::*;

verus! {

/// Number of points a series keeps, and a graph shows.
pub const GRAPH_POINTS: usize = 120;

/// Thousandths of a percent in one percent: the scale of every percentage here.
pub const PERCENT_SCALE: u64 = 1000;

/// Column by which the process table is ordered.
#[derive(Debug, Clone, Copy, PartialEq, Eq, Structural)]
pub enum SortKey {
    Pid,
    Name,
    Cpu,
    Mem,
    Read,
    Write,
}

impl Default for SortKey {
    fn default() -> (key: Self)
        ensures
            key == SortKey::Cpu,
    {
        SortKey::Cpu
    }
}

/// Direction in which the process table is ordered.
#[derive(Debug, Clone, Copy, PartialEq, Eq, Structural)]
pub enum SortDir {
    Asc,
    Desc,
}

impl Default for SortDir {
    fn default() -> (dir: Self)
        ensures
            dir == SortDir::Desc,
    {
        SortDir::Desc
    }
}

/// An event from the timer or the operator.
#[derive(Debug, Clone)]
pub enum Message {
    Tick,
    FilterChanged(String),
    SortBy(SortKey),
    Kill(i32),
    Suspend(i32),
    Resume(i32),
    Boost(i32),
    Lower(i32),
    StartChanged(String),
    StartNow,
    CpuAlertChanged(bool),
    MemAlertChanged(bool),
}

/// An event, with its strings as character sequences.
pub enum MessageView {
    Tick,
    FilterChanged(Seq<char>),
    SortBy(SortKey),
    Kill(i32),
    Suspend(i32),
    Resume(i32),
    Boost(i32),
    Lower(i32),
    StartChanged(Seq<char>),
    StartNow,
    CpuAlertChanged(bool),
    MemAlertChanged(bool),
}

impl View for Message {
    type V = MessageView;

    open spec fn view(&self) -> MessageView {
        match *self {
            Message::Tick => MessageView::Tick,
            Message::FilterChanged(s) => MessageView::FilterChanged(s@),
            Message::SortBy(key) => MessageView::SortBy(key),
            Message::Kill(pid) => MessageView::Kill(pid),
            Message::Suspend(pid) => MessageView::Suspend(pid),
            Message::Resume(pid) => MessageView::Resume(pid),
            Message::Boost(pid) => MessageView::Boost(pid),
            Message::Lower(pid) => MessageView::Lower(pid),
            Message::StartChanged(s) => MessageView::StartChanged(s@),
            Message::StartNow => MessageView::StartNow,
            Message::CpuAlertChanged(on) => MessageView::CpuAlertChanged(on),
            Message::MemAlertChanged(on) => MessageView::MemAlertChanged(on),
        }
    }
}

/// What is to be done outside the monitor in answer to an event.
#[derive(Debug, Clone)]
pub enum Action {
    /// Nothing.
    Idle,
    /// Read the system and run a tick.
    Refresh,
    /// End the process.
    Kill(i32),
    /// Stop the process until it is resumed.
    Suspend(i32),
    /// Let the stopped process run again.
    Resume(i32),
    /// Raise the scheduling priority of the process by one step.
    Boost(i32),
    /// Lower the scheduling priority of the process by one step.
    Lower(i32),
    /// Launch the command line.
    Start(String),
}

/// An action, with its string as a character sequence.
pub enum ActionView {
    Idle,
    Refresh,
    Kill(i32),
    Suspend(i32),
    Resume(i32),
    Boost(i32),
    Lower(i32),
    Start(Seq<char>),
}

impl View for Action {
    type V = ActionView;

    open spec fn view(&self) -> ActionView {
        match *self {
            Action::Idle => ActionView::Idle,
            Action::Refresh => ActionView::Refresh,
            Action::Kill(pid) => ActionView::Kill(pid),
            Action::Suspend(pid) => ActionView::Suspend(pid),
            Action::Resume(pid) => ActionView::Resume(pid),
            Action::Boost(pid) => ActionView::Boost(pid),
            Action::Lower(pid) => ActionView::Lower(pid),
            Action::Start(cmd) => ActionView::Start(cmd@),
        }
    }
}

/// Limits that the advisory rules compare a snapshot against.
#[derive(Debug, Clone, Copy)]
pub struct Thresholds {
    /// Total CPU load, in whole percent, above which the busiest process is named.
    pub cpu_percent: u8,
    /// Memory in use, in whole percent, above which the largest process is named.
    pub mem_percent: u8,
    /// CPU load of one process, in thousandths of a percent, below which it counts as idle.
    pub idle_cpu: u64,
    /// Combined read and write rate, in bytes per second, below which a process counts as idle.
    pub idle_io_bps: u64,
    /// Resident memory, in bytes, above which a process counts as heavy.
    pub heavy_mem_bytes: u64,
}

impl Default for Thresholds {
    fn default() -> (limits: Self)
        ensures
            limits == (Thresholds {
                cpu_percent: 0,
                mem_percent: 0,
                idle_cpu: 0,
                idle_io_bps: 0,
                heavy_mem_bytes: 0,
            }),
    {
        Thresholds { cpu_percent: 0, mem_percent: 0, idle_cpu: 0, idle_io_bps: 0, heavy_mem_bytes: 0 }
    }
}

/// The text of an advisory.
pub struct SuggestionText {
    pub title: Seq<char>,
    pub detail: Seq<char>,
}

/// A recommendation to the operator, made anew on every tick.
#[derive(Debug, Clone)]
pub struct Suggestion {
    pub title: String,
    pub detail: String,
}

impl View for Suggestion {
    type V = SuggestionText;

    open spec fn view(&self) -> SuggestionText {
        SuggestionText { title: self.title@, detail: self.detail@ }
    }
}

impl DeepView for Suggestion {
    type V = SuggestionText;

    open spec fn deep_view(&self) -> SuggestionText {
        self@
    }
}

impl Default for Suggestion {
    fn default() -> (s: Self)
        ensures
            s@ == (SuggestionText { title: Seq::empty(), detail: Seq::empty() }),
    {
        Suggestion { title: String::new(), detail: String::new() }
    }
}

/// What a settings value holds, with its strings as character sequences.
pub struct SettingsView {
    pub filter: Seq<char>,
    pub sort_key: SortKey,
    pub sort_dir: SortDir,
    pub cmd_to_start: Seq<char>,
    pub alerts_on_cpu: bool,
    pub alerts_on_mem: bool,
    pub thresholds: Thresholds,
}

/// What the operator has chosen: filter, ordering, command line and alerts.
#[derive(Debug, Clone)]
pub struct SettingsModel {
    pub filter: String,
    pub sort_key: SortKey,
    pub sort_dir: SortDir,
    pub cmd_to_start: String,
    pub alerts_on_cpu: bool,
    pub alerts_on_mem: bool,
    pub thresholds: Thresholds,
}

impl View for SettingsModel {
    type V = SettingsView;

    open spec fn view(&self) -> SettingsView {
        SettingsView {
            filter: self.filter@,
            sort_key: self.sort_key,
            sort_dir: self.sort_dir,
            cmd_to_start: self.cmd_to_start@,
            alerts_on_cpu: self.alerts_on_cpu,
            alerts_on_mem: self.alerts_on_mem,
            thresholds: self.thresholds,
        }
    }
}

/// The other direction.
pub open spec fn reversed(dir: SortDir) -> SortDir {
    match dir {
        SortDir::Asc => SortDir::Desc,
        SortDir::Desc => SortDir::Asc,
    }
}

/// The settings after an event. Choosing the column the table is ordered by
/// turns the direction round; choosing another orders by it, largest first.
pub open spec fn settings_after(s: SettingsView, m: MessageView) -> SettingsView {
    match m {
        MessageView::FilterChanged(filter) => SettingsView { filter, ..s },
        MessageView::SortBy(key) => if s.sort_key == key {
            SettingsView { sort_dir: reversed(s.sort_dir), ..s }
        } else {
            SettingsView { sort_key: key, sort_dir: SortDir::Desc, ..s }
        },
        MessageView::StartChanged(cmd) => SettingsView { cmd_to_start: cmd, ..s },
        MessageView::CpuAlertChanged(on) => SettingsView { alerts_on_cpu: on, ..s },
        MessageView::MemAlertChanged(on) => SettingsView { alerts_on_mem: on, ..s },
        _ => s,
    }
}

/// What an event asks to be done outside the monitor.
pub open spec fn action_for(s: SettingsView, m: MessageView) -> ActionView {
    match m {
        MessageView::Tick => ActionView::Refresh,
        MessageView::Kill(pid) => ActionView::Kill(pid),
        MessageView::Suspend(pid) => ActionView::Suspend(pid),
        MessageView::Resume(pid) => ActionView::Resume(pid),
        MessageView::Boost(pid) => ActionView::Boost(pid),
        MessageView::Lower(pid) => ActionView::Lower(pid),
        MessageView::StartNow => ActionView::Start(s.cmd_to_start),
        _ => ActionView::Idle,
    }
}

impl SettingsModel {
    /// Takes in one event: changes the settings where the event is a choice
    /// of the operator, and returns what is to be done where it asks for work.
    pub fn update(&mut self, message: Message) -> (action: Action)
        ensures
            final(self)@ == settings_after(old(self)@, message@),
            action@ == action_for(old(self)@, message@),
    {
        match message {
            Message::Tick => Action::Refresh,
            Message::FilterChanged(s) => {
                self.filter = s;
                Action::Idle
            },
            Message::SortBy(key) => {
                if self.sort_key == key {
                    self.sort_dir = match self.sort_dir {
                        SortDir::Asc => SortDir::Desc,
                        SortDir::Desc => SortDir::Asc,
                    };
                } else {
                    self.sort_key = key;
                    self.sort_dir = SortDir::Desc;
                }
                Action::Idle
            },
            Message::Kill(pid) => Action::Kill(pid),
            Message::Suspend(pid) => Action::Suspend(pid),
            Message::Resume(pid) => Action::Resume(pid),
            Message::Boost(pid) => Action::Boost(pid),
            Message::Lower(pid) => Action::Lower(pid),
            Message::StartChanged(s) => {
                self.cmd_to_start = s;
                Action::Idle
            },
            Message::StartNow => Action::Start(self.cmd_to_start.clone()),
            Message::CpuAlertChanged(on) => {
                self.alerts_on_cpu = on;
                Action::Idle
            },
            Message::MemAlertChanged(on) => {
                self.alerts_on_mem = on;
                Action::Idle
            },
        }
    }
}

impl Default for SettingsModel {
    fn default() -> (s: Self)
        ensures
            s@ == (SettingsView {
                filter: Seq::empty(),
                sort_key: SortKey::Cpu,
                sort_dir: SortDir::Desc,
                cmd_to_start: Seq::empty(),
                alerts_on_cpu: false,
                alerts_on_mem: false,
                thresholds: Thresholds {
                    cpu_percent: 0,
                    mem_percent: 0,
                    idle_cpu: 0,
                    idle_io_bps: 0,
                    heavy_mem_bytes: 0,
                },
            }),
    {
        SettingsModel {
            filter: String::new(),
            sort_key: SortKey::default(),
            sort_dir: SortDir::default(),
            cmd_to_start: String::new(),
            alerts_on_cpu: false,
            alerts_on_mem: false,
            thresholds: Thresholds::default(),
        }
    }
}

/// What a series holds after `v` is appended to `points`: where `points` is
/// full its oldest value leaves first.
pub open spec fn pushed(points: Seq<u64>, v: u64) -> Seq<u64> {
    if points.len() >= GRAPH_POINTS {
        points.subrange(1, points.len() as int).push(v)
    } else {
        points.push(v)
    }
}

/// What a series holds after each of `values` is appended in turn.
pub open spec fn pushed_all(points: Seq<u64>, values: Seq<u64>) -> Seq<u64>
    decreases values.len(),
{
    if values.len() == 0 {
        points
    } else {
        pushed(pushed_all(points, values.drop_last()), values.last())
    }
}

/// The last `n` values of `s`, or all of `s` where it has no more than `n`.
pub open spec fn latest(s: Seq<u64>, n: nat) -> Seq<u64> {
    if s.len() <= n {
        s
    } else {
        s.subrange(s.len() - n, s.len() as int)
    }
}

/// A series never outgrows its bound and holds the latest values in the order
/// they came: after any run of appends to a series within its bound, the
/// series is within its bound and holds the last `GRAPH_POINTS` of what it
/// held followed by what was appended. Once `GRAPH_POINTS` values or more
/// were appended, it holds exactly the last `GRAPH_POINTS` of them.
pub proof fn lemma_series_keeps_latest(points: Seq<u64>, values: Seq<u64>)
    requires
        points.len() <= GRAPH_POINTS,
    ensures
        pushed_all(points, values).len() <= GRAPH_POINTS,
        pushed_all(points, values) == latest(points + values, GRAPH_POINTS as nat),
        values.len() >= GRAPH_POINTS ==> pushed_all(points, values) == values.subrange(
            values.len() - GRAPH_POINTS,
            values.len() as int,
        ),
    decreases values.len(),
{
    if values.len() > 0 {
        lemma_series_keeps_latest(points, values.drop_last());
    }
}

/// The most recent values of one metric, oldest first, at most `GRAPH_POINTS` of them.
#[derive(Debug)]
pub struct GraphSeries {
    points: VecDeque<u64>,
}

impl View for GraphSeries {
    type V = Seq<u64>;

    closed spec fn view(&self) -> Seq<u64> {
        self.points@
    }
}

impl GraphSeries {
    #[verifier::type_invariant]
    closed spec fn bounded(&self) -> bool {
        self.points@.len() <= GRAPH_POINTS
    }

    /// An empty series.
    pub fn new() -> (series: Self)
        ensures
            series@ == Seq::<u64>::empty(),
    {
        GraphSeries { points: VecDeque::new() }
    }

    /// Appends `v` as the newest value; a full series drops its oldest value first.
    pub fn push(&mut self, v: u64)
        ensures
            final(self)@ == pushed(old(self)@, v),
            final(self)@.len() <= GRAPH_POINTS,
    {
        proof {
            use_type_invariant(&*self);
        }
        // The queue is taken out while it changes, so that the series is
        // within its bound at every step.
        let mut points: VecDeque<u64> = VecDeque::new();
        core::mem::swap(&mut self.points, &mut points);
        if points.len() >= GRAPH_POINTS {
            points.pop_front();
        }
        points.push_back(v);
        core::mem::swap(&mut self.points, &mut points);
    }

    /// Number of values held, never more than `GRAPH_POINTS`.
    pub fn len(&self) -> (n: usize)
        ensures
            n == self@.len(),
            n <= GRAPH_POINTS,
    {
        proof {
            use_type_invariant(self);
        }
        self.points.len()
    }

    /// The value at position `i`, counted from the oldest.
    pub fn get(&self, i: usize) -> (v: Option<u64>)
        ensures
            v == if i < self@.len() { Some(self@[i as int]) } else { None },
    {
        if i < self.points.len() {
            Some(self.points[i])
        } else {
            None
        }
    }

    /// The values held, oldest first.
    pub fn to_vec(&self) -> (values: Vec<u64>)
        ensures
            values@ == self@,
    {
        let mut values: Vec<u64> = Vec::new();
        let mut i: usize = 0;
        while i < self.points.len()
            invariant
                i <= self.points@.len(),
                values@ == self.points@.subrange(0, i as int),
            decreases self.points@.len() - i,
        {
            values.push(self.points[i]);
            i = i + 1;
        }
        values
    }
}

impl Clone for GraphSeries {
    fn clone(&self) -> (series: Self)
        ensures
            series@ == self@,
    {
        proof {
            use_type_invariant(self);
        }
        let points = self.points.clone();
        GraphSeries { points }
    }
}

impl Default for GraphSeries {
    fn default() -> (series: Self)
        ensures
            series@ == Seq::<u64>::empty(),
    {
        GraphSeries::new()
    }
}

/// The system-wide figures of one tick. The two percentages are in
/// thousandths of a percent, the four rates in bytes per second.
#[derive(Debug, Clone, Copy, PartialEq, Eq, Structural)]
pub struct AggregateSample {
    pub cpu_percent: u64,
    pub memory_percent: u64,
    pub disk_read_bps: u64,
    pub disk_write_bps: u64,
    pub net_rx_bps: u64,
    pub net_tx_bps: u64,
}

/// What the six series hold, each oldest first.
pub struct SystemGraphsView {
    pub cpu: Seq<u64>,
    pub mem: Seq<u64>,
    pub disk_read: Seq<u64>,
    pub disk_write: Seq<u64>,
    pub net_rx: Seq<u64>,
    pub net_tx: Seq<u64>,
}

/// The six system metrics, each with a series of its own.
#[derive(Debug, Clone, Copy, PartialEq, Eq, Structural)]
pub enum Metric {
    Cpu,
    Mem,
    DiskRead,
    DiskWrite,
    NetRx,
    NetTx,
}

/// What the series of one metric holds.
pub open spec fn series_of(graphs: SystemGraphsView, metric: Metric) -> Seq<u64> {
    match metric {
        Metric::Cpu => graphs.cpu,
        Metric::Mem => graphs.mem,
        Metric::DiskRead => graphs.disk_read,
        Metric::DiskWrite => graphs.disk_write,
        Metric::NetRx => graphs.net_rx,
        Metric::NetTx => graphs.net_tx,
    }
}

/// What the six series hold after `v` is appended to the series of `metric`:
/// the other five are as before.
pub open spec fn pushed_to(graphs: SystemGraphsView, metric: Metric, v: u64) -> SystemGraphsView {
    match metric {
        Metric::Cpu => SystemGraphsView { cpu: pushed(graphs.cpu, v), ..graphs },
        Metric::Mem => SystemGraphsView { mem: pushed(graphs.mem, v), ..graphs },
        Metric::DiskRead => SystemGraphsView { disk_read: pushed(graphs.disk_read, v), ..graphs },
        Metric::DiskWrite => SystemGraphsView { disk_write: pushed(graphs.disk_write, v), ..graphs },
        Metric::NetRx => SystemGraphsView { net_rx: pushed(graphs.net_rx, v), ..graphs },
        Metric::NetTx => SystemGraphsView { net_tx: pushed(graphs.net_tx, v), ..graphs },
    }
}

/// What the six series hold after the figures of one tick are appended.
pub open spec fn recorded(graphs: SystemGraphsView, sample: AggregateSample) -> SystemGraphsView {
    SystemGraphsView {
        cpu: pushed(graphs.cpu, sample.cpu_percent),
        mem: pushed(graphs.mem, sample.memory_percent),
        disk_read: pushed(graphs.disk_read, sample.disk_read_bps),
        disk_write: pushed(graphs.disk_write, sample.disk_write_bps),
        net_rx: pushed(graphs.net_rx, sample.net_rx_bps),
        net_tx: pushed(graphs.net_tx, sample.net_tx_bps),
    }
}

/// The series of the six system metrics.
#[derive(Debug, Clone)]
pub struct SystemGraphs {
    pub cpu: GraphSeries,
    pub mem: GraphSeries,
    pub disk_read: GraphSeries,
    pub disk_write: GraphSeries,
    pub net_rx: GraphSeries,
    pub net_tx: GraphSeries,
}

impl View for SystemGraphs {
    type V = SystemGraphsView;

    open spec fn view(&self) -> SystemGraphsView {
        SystemGraphsView {
            cpu: self.cpu@,
            mem: self.mem@,
            disk_read: self.disk_read@,
            disk_write: self.disk_write@,
            net_rx: self.net_rx@,
            net_tx: self.net_tx@,
        }
    }
}

impl SystemGraphs {
    /// The series of one metric.
    pub fn series(&self, metric: Metric) -> (series: &GraphSeries)
        ensures
            series@ == series_of(self@, metric),
    {
        match metric {
            Metric::Cpu => &self.cpu,
            Metric::Mem => &self.mem,
            Metric::DiskRead => &self.disk_read,
            Metric::DiskWrite => &self.disk_write,
            Metric::NetRx => &self.net_rx,
            Metric::NetTx => &self.net_tx,
        }
    }

    /// Appends `v` to the series of `metric` and leaves the other five alone.
    pub fn push(&mut self, metric: Metric, v: u64)
        ensures
            final(self)@ == pushed_to(old(self)@, metric, v),
    {
        match metric {
            Metric::Cpu => self.cpu.push(v),
            Metric::Mem => self.mem.push(v),
            Metric::DiskRead => self.disk_read.push(v),
            Metric::DiskWrite => self.disk_write.push(v),
            Metric::NetRx => self.net_rx.push(v),
            Metric::NetTx => self.net_tx.push(v),
        }
    }

    /// Appends the figures of one tick, each to its own series.
    pub fn record(&mut self, sample: &AggregateSample)
        ensures
            final(self)@ == recorded(old(self)@, *sample),
    {
        self.cpu.push(sample.cpu_percent);
        self.mem.push(sample.memory_percent);
        self.disk_read.push(sample.disk_read_bps);
        self.disk_write.push(sample.disk_write_bps);
        self.net_rx.push(sample.net_rx_bps);
        self.net_tx.push(sample.net_tx_bps);
    }
}

impl Default for SystemGraphs {
    fn default() -> (graphs: Self)
        ensures
            graphs@ == (SystemGraphsView {
                cpu: Seq::empty(),
                mem: Seq::empty(),
                disk_read: Seq::empty(),
                disk_write: Seq::empty(),
                net_rx: Seq::empty(),
                net_tx: Seq::empty(),
            }),
    {
        SystemGraphs {
            cpu: GraphSeries::new(),
            mem: GraphSeries::new(),
            disk_read: GraphSeries::new(),
            disk_write: GraphSeries::new(),
            net_rx: GraphSeries::new(),
            net_tx: GraphSeries::new(),
        }
    }
}

/// One row of the process table.
pub struct ProcRowView {
    pub pid: i32,
    pub name: Seq<char>,
    pub cpu: u64,
    pub mem_bytes: u64,
    pub read_bps: u64,
    pub write_bps: u64,
}

/// One process as sampled on a tick. `cpu` is in thousandths of a percent,
/// the two rates in bytes per second.
#[derive(Debug)]
pub struct ProcRow {
    pub pid: i32,
    pub name: String,
    pub cpu: u64,
    pub mem_bytes: u64,
    pub read_bps: u64,
    pub write_bps: u64,
}

impl View for ProcRow {
    type V = ProcRowView;

    open spec fn view(&self) -> ProcRowView {
        ProcRowView {
            pid: self.pid,
            name: self.name@,
            cpu: self.cpu,
            mem_bytes: self.mem_bytes,
            read_bps: self.read_bps,
            write_bps: self.write_bps,
        }
    }
}

impl DeepView for ProcRow {
    type V = ProcRowView;

    open spec fn deep_view(&self) -> ProcRowView {
        self@
    }
}

impl Clone for ProcRow {
    fn clone(&self) -> (row: Self)
        ensures
            row@ == self@,
    {
        ProcRow {
            pid: self.pid,
            name: self.name.clone(),
            cpu: self.cpu,
            mem_bytes: self.mem_bytes,
            read_bps: self.read_bps,
            write_bps: self.write_bps,
        }
    }
}

impl Default for ProcRow {
    fn default() -> (row: Self)
        ensures
            row@ == (ProcRowView {
                pid: 0,
                name: Seq::empty(),
                cpu: 0,
                mem_bytes: 0,
                read_bps: 0,
                write_bps: 0,
            }),
    {
        ProcRow { pid: 0, name: String::new(), cpu: 0, mem_bytes: 0, read_bps: 0, write_bps: 0 }
    }
}

/// The cumulative byte counters of one process, as last read.
#[derive(Debug, Clone, Copy)]
pub struct IoSnapshot {
    pub read: u64,
    pub write: u64,
}

impl Default for IoSnapshot {
    fn default() -> (snapshot: Self)
        ensures
            snapshot == (IoSnapshot { read: 0, write: 0 }),
    {
        IoSnapshot { read: 0, write: 0 }
    }
}

} // verus!
